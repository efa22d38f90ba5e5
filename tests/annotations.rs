use json_data_instance_export::cnd_annotations::{
    AnnotationBuilder, CndDecorators, Constraint, Directive, HasCndDecorators, InstanceStore,
    TypeRegistry, annotate_instance, collect_decorators_for_instance,
    collect_instance_only_decorators, ensure_types_registered, get_type_decorators, register_types2,
    register_type_decorators, substitute_self_reference, to_yaml, to_yaml_for_instance,
};
use json_data_instance_export::spytial_annotations::SpytialDecoratorsBuilder;

struct TestStruct;

impl HasCndDecorators for TestStruct {
    fn decorators() -> CndDecorators {
        SpytialDecoratorsBuilder::new()
            .orientation("field1", vec!["above", "below"])
            .atom_color("field1", "blue")
            .flag("test_struct")
            .build()
    }
}

fn registry_with_test_struct() -> TypeRegistry {
    let mut registry = TypeRegistry::new();
    ensure_types_registered::<TestStruct>(&mut registry, "TestStruct");
    registry
}

#[test]
fn test_self_reference_substitution() {
    let result = substitute_self_reference("self.field", 12345);
    assert!(result.starts_with("obj_"));
    assert!(result.contains(".field"));
}

#[test]
fn self_reference_substitution_is_exact() {
    assert_eq!(substitute_self_reference("self.field", 12345), "obj_12345.field");
    assert_eq!(substitute_self_reference("self.a + self.b", 7), "obj_7.a + obj_7.b");
    assert_eq!(substitute_self_reference("selfself", 2), "obj_2obj_2");
    assert_eq!(substitute_self_reference("sel.f", 2), "sel.f");
    assert_eq!(substitute_self_reference("", 2), "");
}

#[test]
fn test_annotation_builder() {
    let orientation = AnnotationBuilder::orientation("test_sel", vec!["up", "down"]);
    assert_eq!(orientation.annotation_type, "orientation");
    assert!(orientation.params.contains_key("selector"));
    assert!(orientation.params.contains_key("directions"));

    let cyclic = AnnotationBuilder::cyclic("test_sel", "clockwise");
    assert_eq!(cyclic.annotation_type, "cyclic");

    let atom_color = AnnotationBuilder::atom_color("test_sel", "yellow");
    assert_eq!(atom_color.annotation_type, "atomColor");

    let flag = AnnotationBuilder::flag("test_flag");
    assert_eq!(flag.annotation_type, "flag");
}

#[test]
fn test_instance_annotation() {
    let registry = registry_with_test_struct();
    let mut store = InstanceStore::new();
    let instance = 1usize;

    annotate_instance(&mut store, instance, &AnnotationBuilder::orientation("self.field1", vec!["horizontal"]));
    annotate_instance(&mut store, instance, &AnnotationBuilder::atom_color("self.field2", "orange"));
    annotate_instance(&mut store, instance, &AnnotationBuilder::flag("instance_flag"));

    let combined = collect_decorators_for_instance(&registry, &store, "TestStruct", instance);
    assert_eq!(combined.constraints.len(), 2);
    assert_eq!(combined.directives.len(), 4);
}

#[test]
fn test_self_reference_in_instance_annotation() {
    let registry = registry_with_test_struct();
    let mut store = InstanceStore::new();
    annotate_instance(&mut store, 42, &AnnotationBuilder::orientation("self.children", vec!["horizontal"]));

    let combined = collect_decorators_for_instance(&registry, &store, "TestStruct", 42);
    let yaml = to_yaml(&combined).unwrap();
    assert!(yaml.contains("field1"));
    assert!(yaml.contains("obj_"));
}

#[test]
fn test_multiple_instance_annotations() {
    let registry = registry_with_test_struct();
    let mut store = InstanceStore::new();
    annotate_instance(&mut store, 1, &AnnotationBuilder::flag("instance1"));
    annotate_instance(&mut store, 2, &AnnotationBuilder::flag("instance2"));

    let combined1 = collect_decorators_for_instance(&registry, &store, "TestStruct", 1);
    let combined2 = collect_decorators_for_instance(&registry, &store, "TestStruct", 2);
    assert_eq!(combined1.directives.len(), 3);
    assert_eq!(combined2.directives.len(), 3);

    let yaml1 = to_yaml(&combined1).unwrap();
    let yaml2 = to_yaml(&combined2).unwrap();
    assert!(yaml1.contains("instance1"));
    assert!(!yaml1.contains("instance2"));
    assert!(yaml2.contains("instance2"));
    assert!(!yaml2.contains("instance1"));
}

#[test]
fn placeholders_are_numbered_per_use() {
    let mut store = InstanceStore::new();
    annotate_instance(&mut store, 5, &AnnotationBuilder::orientation("self.a", vec!["left"]));
    annotate_instance(&mut store, 5, &AnnotationBuilder::flag("no_selector"));
    annotate_instance(&mut store, 6, &AnnotationBuilder::cyclic("self.b", "clockwise"));
    let d5 = collect_instance_only_decorators(&store, 5);
    let d6 = collect_instance_only_decorators(&store, 6);
    match &d5.constraints[0] {
        Constraint::Orientation(o) => {
            assert_eq!(o.orientation.selector, "obj_1.a");
            assert_eq!(o.orientation.directions, vec!["left".to_string()]);
        }
        _ => panic!("expected orientation"),
    }
    match &d6.constraints[0] {
        Constraint::Cyclic(c) => {
            assert_eq!(c.cyclic.selector, "obj_2.b");
            assert_eq!(c.cyclic.direction, "clockwise");
        }
        _ => panic!("expected cyclic"),
    }
    assert_eq!(d5.directives.len(), 1);
}

#[test]
fn unknown_annotation_kind_is_ignored() {
    let mut store = InstanceStore::new();
    let mut a = AnnotationBuilder::flag("x");
    a.annotation_type = "sparkle".to_string();
    annotate_instance(&mut store, 9, &a);
    let d = collect_instance_only_decorators(&store, 9);
    assert!(d.constraints.is_empty());
    assert!(d.directives.is_empty());
}

#[test]
fn instance_without_annotations_has_only_type_decorators() {
    let registry = registry_with_test_struct();
    let store = InstanceStore::new();
    let d = collect_decorators_for_instance(&registry, &store, "TestStruct", 3);
    assert_eq!(d, TestStruct::decorators());
    let none = collect_decorators_for_instance(&registry, &store, "Unregistered", 3);
    assert!(none.constraints.is_empty() && none.directives.is_empty());
}

#[test]
fn registration_is_idempotent() {
    let mut registry = TypeRegistry::new();
    let first = SpytialDecoratorsBuilder::new().flag("first").build();
    let second = SpytialDecoratorsBuilder::new().flag("second").build();
    register_type_decorators(&mut registry, "T", first);
    register_type_decorators(&mut registry, "T", second);
    let got = get_type_decorators(&registry, "T").unwrap();
    match &got.directives[0] {
        Directive::Flag(f) => assert_eq!(f.flag, "first"),
        _ => panic!("expected a flag"),
    }
    assert!(get_type_decorators(&registry, "U").is_none());
}

#[test]
fn instance_yaml_holds_type_then_instance_entries() {
    let registry = registry_with_test_struct();
    let mut store = InstanceStore::new();
    annotate_instance(&mut store, 4, &AnnotationBuilder::flag("mine"));
    let yaml = to_yaml_for_instance(&registry, &store, "TestStruct", 4).unwrap();
    let type_pos = yaml.find("test_struct").unwrap();
    let own_pos = yaml.find("mine").unwrap();
    assert!(type_pos < own_pos);
}

struct OtherStruct;

impl HasCndDecorators for OtherStruct {
    fn decorators() -> CndDecorators {
        SpytialDecoratorsBuilder::new().hide_atom("other").build()
    }
}

#[test]
fn registering_several_types_stores_each_declared_set() {
    let mut registry = TypeRegistry::new();
    register_types2::<TestStruct, OtherStruct>(&mut registry, "TestStruct", "OtherStruct");
    assert_eq!(get_type_decorators(&registry, "TestStruct").unwrap(), TestStruct::decorators());
    assert_eq!(get_type_decorators(&registry, "OtherStruct").unwrap(), OtherStruct::decorators());
    let mut again = TypeRegistry::new();
    OtherStruct::ensure_registered(&mut again, "OtherStruct");
    assert_eq!(get_type_decorators(&again, "OtherStruct").unwrap(), OtherStruct::decorators());
}
