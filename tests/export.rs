use json_data_instance_export::cnd_annotations::{TypeRegistry, register_type_decorators};
use json_data_instance_export::spytial_annotations::SpytialDecoratorsBuilder;
use json_data_instance_export::{
    IRelation, JsonDataInstance, Shape, export_json_instance, export_json_instance_with_decorators,
};

fn text(s: &str) -> Shape {
    Shape::Str(s.to_string())
}

fn person(name: &str, age: u32) -> Shape {
    Shape::Struct(
        "Person".to_string(),
        vec![("name".to_string(), text(name)), ("age".to_string(), Shape::U32(age))],
    )
}

fn company() -> Shape {
    Shape::Struct(
        "Company".to_string(),
        vec![
            ("name".to_string(), text("Acme Corp")),
            (
                "employees".to_string(),
                Shape::Sequence(vec![person("Alice", 30), person("Bob", 25)]),
            ),
        ],
    )
}

fn color(name: &str) -> Shape {
    Shape::UnitVariant("Color".to_string(), name.to_string())
}

fn relation<'a>(inst: &'a JsonDataInstance, name: &str) -> &'a IRelation {
    inst.relations.iter().find(|r| r.name == name).expect("relation present")
}

fn atom_type<'a>(inst: &'a JsonDataInstance, id: &str) -> &'a str {
    &inst.atoms.iter().find(|a| a.id == id).expect("atom present").atom_type
}

#[test]
fn test_current_serialization() {
    let test_data = Shape::Struct(
        "TestStruct".to_string(),
        vec![
            ("name".to_string(), text("Test")),
            (
                "items".to_string(),
                Shape::Sequence(vec![text("item1"), text("item2"), text("item3")]),
            ),
        ],
    );

    let json_instance = export_json_instance(&test_data);
    println!("Atoms:");
    for atom in &json_instance.atoms {
        println!("  {:?}", atom);
    }

    println!("\nRelations:");
    for relation in &json_instance.relations {
        println!("  {:?}", relation);
    }
}

#[test]
fn company_round_trip() {
    let inst = export_json_instance(&company());
    let companies: Vec<_> = inst.atoms.iter().filter(|a| a.atom_type == "Company").collect();
    let people: Vec<_> = inst.atoms.iter().filter(|a| a.atom_type == "Person").collect();
    assert_eq!(companies.len(), 1);
    assert_eq!(people.len(), 2);

    let name = relation(&inst, "name");
    assert_eq!(name.tuples.len(), 3);
    assert_eq!(name.types, vec!["struct", "atom"]);
    let owners: Vec<_> = name.tuples.iter().map(|t| atom_type(&inst, &t.atoms[0])).collect();
    assert_eq!(owners, vec!["Company", "Person", "Person"]);
    for t in &name.tuples {
        assert_eq!(t.types, name.types);
        assert_eq!(atom_type(&inst, &t.atoms[1]), "string");
    }

    let age = relation(&inst, "age");
    assert_eq!(age.tuples.len(), 2);

    let employees = relation(&inst, "employees");
    assert_eq!(employees.tuples.len(), 1);
    let seq_id = &employees.tuples[0].atoms[1];
    assert_eq!(atom_type(&inst, seq_id), "sequence");

    let idx = relation(&inst, "idx");
    assert_eq!(idx.tuples.len(), 2);
    assert_eq!(idx.types, vec!["sequence", "index", "atom"]);
    for (i, t) in idx.tuples.iter().enumerate() {
        assert_eq!(&t.atoms[0], seq_id);
        assert_eq!(t.atoms[1], i.to_string());
        assert_eq!(t.atoms[2], people[i].id);
    }
}

#[test]
fn company_exact_layout() {
    let inst = export_json_instance(&company());
    let ids: Vec<_> = inst.atoms.iter().map(|a| a.id.as_str()).collect();
    assert_eq!(ids, vec!["atom0", "atom1", "atom2", "atom3", "atom4", "atom5", "atom6", "atom7", "atom8"]);
    let labels: Vec<_> = inst.atoms.iter().map(|a| a.label.as_str()).collect();
    assert_eq!(
        labels,
        vec!["Company", "Acme Corp", "seq[2]", "Person", "Alice", "30", "Person", "Bob", "25"]
    );
    let names: Vec<_> = inst.relations.iter().map(|r| r.name.as_str()).collect();
    assert_eq!(names, vec!["name", "age", "idx", "employees"]);
    assert_eq!(relation(&inst, "age").tuples[1].atoms, vec!["atom6", "atom8"]);
}

#[test]
fn singleton_enum_values_share_atoms() {
    let v = Shape::Sequence(vec![color("Red"), color("Red"), color("Black"), color("Red"), color("Black")]);
    let inst = export_json_instance(&v);
    let colors: Vec<_> = inst.atoms.iter().filter(|a| a.atom_type == "Color").collect();
    assert_eq!(colors.len(), 2);
    let red = colors.iter().find(|a| a.label == "Red").unwrap().id.clone();
    let black = colors.iter().find(|a| a.label == "Black").unwrap().id.clone();
    let idx = relation(&inst, "idx");
    assert_eq!(idx.tuples.len(), 5);
    let refs: Vec<_> = idx.tuples.iter().map(|t| t.atoms[2].clone()).collect();
    assert_eq!(refs, vec![red.clone(), red.clone(), black.clone(), red, black]);
}

#[test]
fn other_singletons_are_shared() {
    let v = Shape::Tuple(vec![
        Shape::Bool(true),
        Shape::Absent,
        Shape::Unit,
        Shape::UnitStruct("Marker".to_string()),
        Shape::Bool(true),
        Shape::Absent,
        Shape::Unit,
        Shape::UnitStruct("Marker".to_string()),
        Shape::Bool(false),
    ]);
    let inst = export_json_instance(&v);
    assert_eq!(inst.atoms.len(), 1 + 5);
    let idx = relation(&inst, "tuple_idx");
    for k in 0..4 {
        assert_eq!(idx.tuples[k].atoms[2], idx.tuples[k + 4].atoms[2]);
    }
    assert_ne!(idx.tuples[0].atoms[2], idx.tuples[8].atoms[2]);
    let none = inst.atoms.iter().find(|a| a.atom_type == "None").unwrap();
    assert_eq!(none.label, "None");
    let unit = inst.atoms.iter().find(|a| a.atom_type == "unit").unwrap();
    assert_eq!(unit.label, "()");
    let marker = inst.atoms.iter().find(|a| a.atom_type == "unit_struct").unwrap();
    assert_eq!(marker.label, "Marker");
}

#[test]
fn equal_people_get_distinct_atoms() {
    let v = Shape::Sequence(vec![person("Bob", 25), person("Bob", 25)]);
    let inst = export_json_instance(&v);
    let people: Vec<_> = inst.atoms.iter().filter(|a| a.atom_type == "Person").collect();
    assert_eq!(people.len(), 2);
    assert_ne!(people[0].id, people[1].id);
    let bobs = inst.atoms.iter().filter(|a| a.label == "Bob").count();
    assert_eq!(bobs, 2);
}

#[test]
fn relations_keep_arity() {
    let v = Shape::Struct(
        "Root".to_string(),
        vec![
            ("pairs".to_string(), Shape::Mapping(vec![(text("k"), Shape::I8(-3))])),
            ("point".to_string(), Shape::TupleStruct("Point".to_string(), vec![Shape::I16(1), Shape::I16(2)])),
            ("wrapped".to_string(), Shape::NewtypeStruct("Meters".to_string(), Box::new(Shape::U8(7)))),
        ],
    );
    let inst = export_json_instance(&v);
    for r in &inst.relations {
        for t in &r.tuples {
            assert_eq!(t.atoms.len(), r.types.len());
            assert_eq!(t.types, r.types);
        }
    }
    assert_eq!(relation(&inst, "map_entry").types, vec!["map", "atom", "atom"]);
    assert_eq!(relation(&inst, "value").types, vec!["newtype_struct", "atom"]);
    assert_eq!(relation(&inst, "Point.idx").types, vec!["tuple_struct", "index", "atom"]);
}

#[test]
fn field_relations_have_one_tuple_per_instance() {
    let v = Shape::Sequence(vec![person("A", 1), person("B", 2), person("C", 3)]);
    let inst = export_json_instance(&v);
    assert_eq!(inst.relations.iter().filter(|r| r.name == "name").count(), 1);
    assert_eq!(inst.relations.iter().filter(|r| r.name == "age").count(), 1);
    let people: Vec<_> = inst.atoms.iter().filter(|a| a.atom_type == "Person").collect();
    for rel in ["name", "age"] {
        let r = relation(&inst, rel);
        assert_eq!(r.tuples.len(), 3);
        for (i, t) in r.tuples.iter().enumerate() {
            assert_eq!(t.atoms[0], people[i].id);
        }
    }
}

#[test]
fn positions_follow_traversal_order() {
    let v = Shape::Sequence(vec![Shape::I32(10), Shape::I32(20), Shape::I32(30)]);
    let inst = export_json_instance(&v);
    assert_eq!(inst.relations.len(), 1);
    let idx = relation(&inst, "idx");
    let positions: Vec<_> = idx.tuples.iter().map(|t| t.atoms[1].as_str()).collect();
    assert_eq!(positions, vec!["0", "1", "2"]);
    let labels: Vec<_> = idx
        .tuples
        .iter()
        .map(|t| inst.atoms.iter().find(|a| a.id == t.atoms[2]).unwrap().label.clone())
        .collect();
    assert_eq!(labels, vec!["10", "20", "30"]);
    assert_eq!(inst.atoms[0].label, "seq[3]");
}

#[test]
fn empty_sequence_is_one_atom() {
    let inst = export_json_instance(&Shape::Sequence(vec![]));
    assert_eq!(inst.atoms.len(), 1);
    assert_eq!(inst.atoms[0].atom_type, "sequence");
    assert_eq!(inst.atoms[0].label, "seq[0]");
    assert!(inst.relations.is_empty());
}

#[test]
fn scalars_keep_their_kind_and_rendering() {
    let v = Shape::Tuple(vec![
        Shape::I64(i64::MIN),
        Shape::U64(u64::MAX),
        Shape::I8(-7),
        Shape::Char('é'),
        Shape::Bytes(vec![1, 20, 255]),
        Shape::F64("2.5".to_string()),
        Shape::Present(Box::new(Shape::U16(0))),
    ]);
    let inst = export_json_instance(&v);
    let pairs: Vec<_> = inst.atoms.iter().map(|a| (a.atom_type.as_str(), a.label.as_str())).collect();
    assert_eq!(
        pairs,
        vec![
            ("tuple", "tuple[7]"),
            ("i64", "-9223372036854775808"),
            ("u64", "18446744073709551615"),
            ("i8", "-7"),
            ("char", "é"),
            ("bytes", "[1, 20, 255]"),
            ("f64", "2.5"),
            ("u16", "0"),
        ]
    );
}

#[test]
fn variants_carry_enum_and_case() {
    let v = Shape::Tuple(vec![
        Shape::NewtypeVariant("Shape".to_string(), "Circle".to_string(), Box::new(Shape::U32(2))),
        Shape::TupleVariant("Shape".to_string(), "Rect".to_string(), vec![Shape::U32(1), Shape::U32(3)]),
        Shape::StructVariant(
            "Shape".to_string(),
            "Tri".to_string(),
            vec![("side".to_string(), Shape::U32(4))],
        ),
    ]);
    let inst = export_json_instance(&v);
    let variants: Vec<_> = inst.atoms.iter().filter(|a| a.atom_type == "Shape").map(|a| a.label.as_str()).collect();
    assert_eq!(variants, vec!["Circle", "Rect", "Tri"]);
    assert_eq!(relation(&inst, "variant_value").types, vec!["variant", "atom"]);
    assert_eq!(relation(&inst, "Shape::Rect.idx").tuples.len(), 2);
    assert_eq!(relation(&inst, "Shape::Tri.side").tuples[0].types, vec!["variant", "atom"]);
    assert!(inst.relations.iter().all(|r| r.name != "side" && r.name != "idx"));
}

#[test]
fn struct_decorators_are_collected_once_except_root() {
    let mut registry = TypeRegistry::new();
    register_type_decorators(&mut registry, "Company", SpytialDecoratorsBuilder::new().flag("company").build());
    register_type_decorators(&mut registry, "Person", SpytialDecoratorsBuilder::new().attribute("age", None).build());
    let (inst, decorators) = export_json_instance_with_decorators(&company(), "Company", &registry);
    assert_eq!(inst.atoms.len(), 9);
    assert!(decorators.constraints.is_empty());
    assert_eq!(decorators.directives.len(), 1);

    let (_, all) = export_json_instance_with_decorators(&company(), "Other", &registry);
    assert_eq!(all.directives.len(), 2);
}

#[test]
fn nested_structs_sharing_a_field_keep_one_column_typing() {
    let inner = Shape::Struct("B".to_string(), vec![("x".to_string(), Shape::I32(1))]);
    let v = Shape::Struct("A".to_string(), vec![("x".to_string(), inner)]);
    let inst = export_json_instance(&v);
    assert_eq!(inst.relations.len(), 1);
    let x = relation(&inst, "x");
    assert_eq!(x.tuples.len(), 2);
    for t in &x.tuples {
        assert_eq!(t.types, x.types);
    }
}

#[test]
fn variant_payload_is_apart_from_struct_fields() {
    let v = Shape::Tuple(vec![
        Shape::Struct("P".to_string(), vec![("side".to_string(), Shape::U8(1))]),
        Shape::StructVariant("E".to_string(), "C".to_string(), vec![("side".to_string(), Shape::U8(2))]),
    ]);
    let inst = export_json_instance(&v);
    assert_eq!(relation(&inst, "side").tuples.len(), 1);
    assert_eq!(relation(&inst, "E::C.side").tuples.len(), 1);
}

#[test]
fn field_named_like_a_positional_relation_stays_apart() {
    let v = Shape::Struct(
        "S".to_string(),
        vec![("idx".to_string(), Shape::Sequence(vec![Shape::U8(1)]))],
    );
    let inst = export_json_instance(&v);
    let idx: Vec<_> = inst.relations.iter().filter(|r| r.name == "idx").collect();
    assert_eq!(idx.len(), 2);
    for r in &inst.relations {
        for t in &r.tuples {
            assert_eq!(t.types, r.types);
        }
    }
}
