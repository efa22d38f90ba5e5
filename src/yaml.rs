//! The YAML document of a decorator set: its layout (keys, nesting, key
//! spelling) is built here; the text is rendered by `serde_yaml`.

use vstd::prelude::*;
use crate::annotations::{InstanceStore, collect_decorators_for_instance, stored_or_empty};
use crate::decorators::{
    CndDecorators, Constraint, ConstraintV, DecoratorsV, Directive, DirectiveV, GroupParams, merged,
};
use crate::registry::{HasCndDecorators, TypeRegistry, registered_or_empty};
use crate::text::{owned, string_views};
use serde_yaml::Value as YamlValue;

verus! {

/// `serde_yaml::Value`, carried opaquely from the node conversion to the renderer.
#[verifier::external_type_specification]
#[verifier::external_body]
pub struct ExYamlValue(serde_yaml::Value);

/// `serde_yaml::Error`, the renderer's error, handed back to the caller as is.
#[verifier::external_type_specification]
#[verifier::external_body]
pub struct ExYamlError(serde_yaml::Error);

/// A YAML node: a scalar, a list, or a record whose keys keep their order.
#[derive(Debug)]
pub enum YamlNode {
    Text(String),
    Number(u32),
    Bool(bool),
    List(Vec<YamlNode>),
    Record(Vec<(String, YamlNode)>),
}

/// A YAML node as plain values.
pub enum YamlV {
    Text(Seq<char>),
    Number(u32),
    Bool(bool),
    List(Seq<YamlV>),
    Record(Seq<(Seq<char>, YamlV)>),
}

pub open spec fn yaml_view(n: YamlNode) -> YamlV
    decreases n, 1nat,
{
    match n {
        YamlNode::Text(s) => YamlV::Text(s@),
        YamlNode::Number(x) => YamlV::Number(x),
        YamlNode::Bool(b) => YamlV::Bool(b),
        YamlNode::List(items) => YamlV::List(yaml_views(items@)),
        YamlNode::Record(fields) => YamlV::Record(yaml_field_views(fields@)),
    }
}

pub open spec fn yaml_views(items: Seq<YamlNode>) -> Seq<YamlV>
    decreases items, 0nat,
{
    if items.len() == 0 {
        Seq::empty()
    } else {
        yaml_views(items.drop_last()).push(yaml_view(items.last()))
    }
}

pub open spec fn yaml_field_views(fields: Seq<(String, YamlNode)>) -> Seq<(Seq<char>, YamlV)>
    decreases fields, 0nat,
{
    if fields.len() == 0 {
        Seq::empty()
    } else {
        yaml_field_views(fields.drop_last()).push((fields.last().0@, yaml_view(fields.last().1)))
    }
}

/// What `serde_yaml` renders for a document: its text, or `None` when
/// rendering fails.
pub uninterp spec fn yaml_rendering(doc: YamlV) -> Option<Seq<char>>;

/// The outcome of a rendering call, as the named rendering states it.
pub open spec fn rendered_as(r: Result<String, serde_yaml::Error>, doc: YamlV) -> bool {
    match r {
        Ok(s) => yaml_rendering(doc) == Some(s@),
        Err(_) => yaml_rendering(doc) is None,
    }
}

/// Relies on the `serde_yaml::Value` constructors: the node becomes the value
/// of the same shape, with record keys as strings in their order.
#[verifier::external_body]
fn to_yaml_value(n: &YamlNode) -> YamlValue {
    match n {
        YamlNode::Text(s) => YamlValue::String(s.clone()),
        YamlNode::Number(x) => YamlValue::Number((*x).into()),
        YamlNode::Bool(b) => YamlValue::Bool(*b),
        YamlNode::List(items) => YamlValue::Sequence(items.iter().map(to_yaml_value).collect()),
        YamlNode::Record(fields) => YamlValue::Mapping(fields.iter().map(|(k, v)| (YamlValue::String(k.clone()), to_yaml_value(v))).collect()),
    }
}

/// Relies on `serde_yaml::to_string`: whether it succeeds, and the text it
/// gives, depend on the document alone.
#[verifier::external_body]
fn render_yaml(n: &YamlNode) -> (r: Result<String, serde_yaml::Error>)
    ensures
        match r {
            Ok(s) => yaml_rendering(yaml_view(*n)) == Some(s@),
            Err(_) => yaml_rendering(yaml_view(*n)) is None,
        },
{
    serde_yaml::to_string(&to_yaml_value(n))
}

pub open spec fn text_list_yaml(items: Seq<Seq<char>>) -> YamlV {
    YamlV::List(Seq::new(items.len(), |i: int| YamlV::Text(items[i])))
}

/// An optional `selector` field, present only when the selector is.
pub open spec fn optional_selector(sel: Option<Seq<char>>) -> Seq<(Seq<char>, YamlV)> {
    match sel {
        Some(s) => seq![("selector"@, YamlV::Text(s))],
        None => Seq::empty(),
    }
}

/// A record with one key holding a record of fields.
pub open spec fn tagged(key: Seq<char>, fields: Seq<(Seq<char>, YamlV)>) -> YamlV {
    YamlV::Record(seq![(key, YamlV::Record(fields))])
}

/// The YAML form of a constraint.
pub open spec fn constraint_yaml(c: ConstraintV) -> YamlV {
    match c {
        ConstraintV::Orientation { selector, directions } => tagged(
            "orientation"@,
            seq![("selector"@, YamlV::Text(selector)), ("directions"@, text_list_yaml(directions))],
        ),
        ConstraintV::Cyclic { selector, direction } => tagged(
            "cyclic"@,
            seq![("selector"@, YamlV::Text(selector)), ("direction"@, YamlV::Text(direction))],
        ),
        ConstraintV::GroupField { field, group_on, add_to_group, selector } => tagged(
            "group"@,
            seq![
                ("field"@, YamlV::Text(field)),
                ("groupOn"@, YamlV::Number(group_on)),
                ("addToGroup"@, YamlV::Number(add_to_group)),
            ] + optional_selector(selector),
        ),
        ConstraintV::GroupSelector { selector, name } => tagged(
            "group"@,
            seq![("selector"@, YamlV::Text(selector)), ("name"@, YamlV::Text(name))],
        ),
    }
}

/// The YAML form of a directive.
pub open spec fn directive_yaml(d: DirectiveV) -> YamlV {
    match d {
        DirectiveV::AtomColor { selector, value } => tagged(
            "atomColor"@,
            seq![("selector"@, YamlV::Text(selector)), ("value"@, YamlV::Text(value))],
        ),
        DirectiveV::Size { selector, height, width } => tagged(
            "size"@,
            seq![
                ("selector"@, YamlV::Text(selector)),
                ("height"@, YamlV::Number(height)),
                ("width"@, YamlV::Number(width)),
            ],
        ),
        DirectiveV::Icon { selector, path, show_labels } => tagged(
            "icon"@,
            seq![
                ("selector"@, YamlV::Text(selector)),
                ("path"@, YamlV::Text(path)),
                ("showLabels"@, YamlV::Bool(show_labels)),
            ],
        ),
        DirectiveV::EdgeColor { field, value, selector } => tagged(
            "edgeColor"@,
            seq![("field"@, YamlV::Text(field)), ("value"@, YamlV::Text(value))] + optional_selector(
                selector,
            ),
        ),
        DirectiveV::Projection { sig } => tagged("projection"@, seq![("sig"@, YamlV::Text(sig))]),
        DirectiveV::Attribute { field, selector } => tagged(
            "attribute"@,
            seq![("field"@, YamlV::Text(field))] + optional_selector(selector),
        ),
        DirectiveV::HideField { field, selector } => tagged(
            "hideField"@,
            seq![("field"@, YamlV::Text(field))] + optional_selector(selector),
        ),
        DirectiveV::HideAtom { selector } => tagged(
            "hideAtom"@,
            seq![("selector"@, YamlV::Text(selector))],
        ),
        DirectiveV::InferredEdge { name, selector } => tagged(
            "inferredEdge"@,
            seq![("name"@, YamlV::Text(name)), ("selector"@, YamlV::Text(selector))],
        ),
        DirectiveV::Flag { name } => YamlV::Record(seq![("flag"@, YamlV::Text(name))]),
    }
}

/// The YAML document of a decorator set: `constraints` and `directives`, each
/// a list in order.
pub open spec fn decorators_yaml(d: DecoratorsV) -> YamlV {
    YamlV::Record(
        seq![
            ("constraints"@, YamlV::List(d.constraints.map_values(|c: ConstraintV| constraint_yaml(c)))),
            ("directives"@, YamlV::List(d.directives.map_values(|x: DirectiveV| directive_yaml(x)))),
        ],
    )
}

fn push_field(fields: &mut Vec<(String, YamlNode)>, key: &str, n: YamlNode)
    ensures
        yaml_field_views(final(fields)@) == yaml_field_views(old(fields)@).push((key@, yaml_view(n))),
{
    let k = owned(key);
    fields.push((k, n));
    proof {
        assert(final(fields)@.drop_last() =~= old(fields)@);
    }
}

fn push_item(items: &mut Vec<YamlNode>, n: YamlNode)
    ensures
        yaml_views(final(items)@) == yaml_views(old(items)@).push(yaml_view(n)),
{
    items.push(n);
    proof {
        assert(final(items)@.drop_last() =~= old(items)@);
    }
}

fn text_node(s: &String) -> (r: YamlNode)
    ensures
        yaml_view(r) == YamlV::Text(s@),
{
    YamlNode::Text(s.clone())
}

fn text_list_node(v: &Vec<String>) -> (r: YamlNode)
    ensures
        yaml_view(r) == text_list_yaml(string_views(v@)),
{
    let mut items: Vec<YamlNode> = Vec::new();
    let mut i: usize = 0;
    while i < v.len()
        invariant
            i <= v@.len(),
            yaml_views(items@) =~= Seq::new(i as nat, |k: int| YamlV::Text(v@[k]@)),
        decreases v@.len() - i,
    {
        push_item(&mut items, text_node(&v[i]));
        i = i + 1;
    }
    let r = YamlNode::List(items);
    proof {
        assert(yaml_views(items@) =~= Seq::new(
            string_views(v@).len(),
            |k: int| YamlV::Text(string_views(v@)[k]),
        ));
    }
    r
}

fn push_optional_selector(fields: &mut Vec<(String, YamlNode)>, sel: &Option<String>)
    ensures
        yaml_field_views(final(fields)@) == yaml_field_views(old(fields)@) + optional_selector(
            crate::decorators::opt_view(*sel),
        ),
{
    match sel {
        Some(s) => {
            push_field(fields, "selector", text_node(s));
            proof {
                assert(yaml_field_views(final(fields)@) =~= yaml_field_views(old(fields)@)
                    + optional_selector(crate::decorators::opt_view(*sel)));
            }
        },
        None => {
            proof {
                assert(yaml_field_views(final(fields)@) =~= yaml_field_views(old(fields)@)
                    + optional_selector(crate::decorators::opt_view(*sel)));
            }
        },
    }
}

fn tagged_node(key: &str, fields: Vec<(String, YamlNode)>) -> (r: YamlNode)
    ensures
        yaml_view(r) == tagged(key@, yaml_field_views(fields@)),
{
    let ghost fv = yaml_field_views(fields@);
    let mut outer: Vec<(String, YamlNode)> = Vec::new();
    push_field(&mut outer, key, YamlNode::Record(fields));
    proof {
        assert(yaml_field_views(outer@) =~= seq![(key@, YamlV::Record(fv))]);
    }
    YamlNode::Record(outer)
}

fn constraint_node(c: &Constraint) -> (r: YamlNode)
    ensures
        yaml_view(r) == constraint_yaml(c@),
{
    let mut f: Vec<(String, YamlNode)> = Vec::new();
    match c {
        Constraint::Orientation(o) => {
            push_field(&mut f, "selector", text_node(&o.orientation.selector));
            push_field(&mut f, "directions", text_list_node(&o.orientation.directions));
            proof {
                assert(yaml_field_views(f@) =~= seq![
                    ("selector"@, YamlV::Text(o.orientation.selector@)),
                    ("directions"@, text_list_yaml(string_views(o.orientation.directions@))),
                ]);
            }
            tagged_node("orientation", f)
        },
        Constraint::Cyclic(x) => {
            push_field(&mut f, "selector", text_node(&x.cyclic.selector));
            push_field(&mut f, "direction", text_node(&x.cyclic.direction));
            proof {
                assert(yaml_field_views(f@) =~= seq![
                    ("selector"@, YamlV::Text(x.cyclic.selector@)),
                    ("direction"@, YamlV::Text(x.cyclic.direction@)),
                ]);
            }
            tagged_node("cyclic", f)
        },
        Constraint::Group(g) => match &g.group {
            GroupParams::FieldBased { field, group_on, add_to_group, selector } => {
                push_field(&mut f, "field", text_node(field));
                push_field(&mut f, "groupOn", YamlNode::Number(*group_on));
                push_field(&mut f, "addToGroup", YamlNode::Number(*add_to_group));
                let ghost three = yaml_field_views(f@);
                push_optional_selector(&mut f, selector);
                proof {
                    assert(three =~= seq![
                        ("field"@, YamlV::Text(field@)),
                        ("groupOn"@, YamlV::Number(*group_on)),
                        ("addToGroup"@, YamlV::Number(*add_to_group)),
                    ]);
                }
                tagged_node("group", f)
            },
            GroupParams::SelectorBased { selector, name } => {
                push_field(&mut f, "selector", text_node(selector));
                push_field(&mut f, "name", text_node(name));
                proof {
                    assert(yaml_field_views(f@) =~= seq![
                        ("selector"@, YamlV::Text(selector@)),
                        ("name"@, YamlV::Text(name@)),
                    ]);
                }
                tagged_node("group", f)
            },
        },
    }
}

fn directive_node(d: &Directive) -> (r: YamlNode)
    ensures
        yaml_view(r) == directive_yaml(d@),
{
    let mut f: Vec<(String, YamlNode)> = Vec::new();
    match d {
        Directive::AtomColor(x) => {
            push_field(&mut f, "selector", text_node(&x.atom_color.selector));
            push_field(&mut f, "value", text_node(&x.atom_color.value));
            proof {
                assert(yaml_field_views(f@) =~= seq![
                    ("selector"@, YamlV::Text(x.atom_color.selector@)),
                    ("value"@, YamlV::Text(x.atom_color.value@)),
                ]);
            }
            tagged_node("atomColor", f)
        },
        Directive::Size(x) => {
            push_field(&mut f, "selector", text_node(&x.size.selector));
            push_field(&mut f, "height", YamlNode::Number(x.size.height));
            push_field(&mut f, "width", YamlNode::Number(x.size.width));
            proof {
                assert(yaml_field_views(f@) =~= seq![
                    ("selector"@, YamlV::Text(x.size.selector@)),
                    ("height"@, YamlV::Number(x.size.height)),
                    ("width"@, YamlV::Number(x.size.width)),
                ]);
            }
            tagged_node("size", f)
        },
        Directive::Icon(x) => {
            push_field(&mut f, "selector", text_node(&x.icon.selector));
            push_field(&mut f, "path", text_node(&x.icon.path));
            push_field(&mut f, "showLabels", YamlNode::Bool(x.icon.show_labels));
            proof {
                assert(yaml_field_views(f@) =~= seq![
                    ("selector"@, YamlV::Text(x.icon.selector@)),
                    ("path"@, YamlV::Text(x.icon.path@)),
                    ("showLabels"@, YamlV::Bool(x.icon.show_labels)),
                ]);
            }
            tagged_node("icon", f)
        },
        Directive::EdgeColor(x) => {
            push_field(&mut f, "field", text_node(&x.edge_color.field));
            push_field(&mut f, "value", text_node(&x.edge_color.value));
            let ghost two = yaml_field_views(f@);
            push_optional_selector(&mut f, &x.edge_color.selector);
            proof {
                assert(two =~= seq![
                    ("field"@, YamlV::Text(x.edge_color.field@)),
                    ("value"@, YamlV::Text(x.edge_color.value@)),
                ]);
            }
            tagged_node("edgeColor", f)
        },
        Directive::Projection(x) => {
            push_field(&mut f, "sig", text_node(&x.projection.sig));
            proof {
                assert(yaml_field_views(f@) =~= seq![("sig"@, YamlV::Text(x.projection.sig@))]);
            }
            tagged_node("projection", f)
        },
        Directive::Attribute(x) => {
            push_field(&mut f, "field", text_node(&x.attribute.field));
            let ghost one = yaml_field_views(f@);
            push_optional_selector(&mut f, &x.attribute.selector);
            proof {
                assert(one =~= seq![("field"@, YamlV::Text(x.attribute.field@))]);
            }
            tagged_node("attribute", f)
        },
        Directive::HideField(x) => {
            push_field(&mut f, "field", text_node(&x.hide_field.field));
            let ghost one = yaml_field_views(f@);
            push_optional_selector(&mut f, &x.hide_field.selector);
            proof {
                assert(one =~= seq![("field"@, YamlV::Text(x.hide_field.field@))]);
            }
            tagged_node("hideField", f)
        },
        Directive::HideAtom(x) => {
            push_field(&mut f, "selector", text_node(&x.hide_atom.selector));
            proof {
                assert(yaml_field_views(f@) =~= seq![("selector"@, YamlV::Text(x.hide_atom.selector@))]);
            }
            tagged_node("hideAtom", f)
        },
        Directive::InferredEdge(x) => {
            push_field(&mut f, "name", text_node(&x.inferred_edge.name));
            push_field(&mut f, "selector", text_node(&x.inferred_edge.selector));
            proof {
                assert(yaml_field_views(f@) =~= seq![
                    ("name"@, YamlV::Text(x.inferred_edge.name@)),
                    ("selector"@, YamlV::Text(x.inferred_edge.selector@)),
                ]);
            }
            tagged_node("inferredEdge", f)
        },
        Directive::Flag(x) => {
            push_field(&mut f, "flag", text_node(&x.flag));
            proof {
                assert(yaml_field_views(f@) =~= seq![("flag"@, YamlV::Text(x.flag@))]);
            }
            YamlNode::Record(f)
        },
    }
}

/// The YAML document of a decorator set.
pub fn decorators_node(d: &CndDecorators) -> (r: YamlNode)
    ensures
        yaml_view(r) == decorators_yaml(d@),
{
    let mut cs: Vec<YamlNode> = Vec::new();
    let mut i: usize = 0;
    while i < d.constraints.len()
        invariant
            i <= d.constraints@.len(),
            yaml_views(cs@) =~= Seq::new(i as nat, |k: int| constraint_yaml(d.constraints@[k]@)),
        decreases d.constraints@.len() - i,
    {
        push_item(&mut cs, constraint_node(&d.constraints[i]));
        i = i + 1;
    }
    let mut ds: Vec<YamlNode> = Vec::new();
    let mut j: usize = 0;
    while j < d.directives.len()
        invariant
            j <= d.directives@.len(),
            yaml_views(ds@) =~= Seq::new(j as nat, |k: int| directive_yaml(d.directives@[k]@)),
        decreases d.directives@.len() - j,
    {
        push_item(&mut ds, directive_node(&d.directives[j]));
        j = j + 1;
    }
    let ghost cv = yaml_views(cs@);
    let ghost dv = yaml_views(ds@);
    let mut top: Vec<(String, YamlNode)> = Vec::new();
    push_field(&mut top, "constraints", YamlNode::List(cs));
    push_field(&mut top, "directives", YamlNode::List(ds));
    proof {
        assert(cv =~= d@.constraints.map_values(|c: ConstraintV| constraint_yaml(c)));
        assert(dv =~= d@.directives.map_values(|x: DirectiveV| directive_yaml(x)));
        assert(yaml_field_views(top@) =~= seq![
            ("constraints"@, YamlV::List(cv)),
            ("directives"@, YamlV::List(dv)),
        ]);
    }
    YamlNode::Record(top)
}

/// The YAML text of a decorator set.
pub fn to_yaml(decorators: &CndDecorators) -> (r: Result<String, serde_yaml::Error>)
    ensures
        rendered_as(r, decorators_yaml(decorators@)),
{
    render_yaml(&decorators_node(decorators))
}

/// The YAML text of the decorators that a type declares.
pub fn to_yaml_for_type<T: HasCndDecorators>() -> (r: Result<String, serde_yaml::Error>)
    ensures
        rendered_as(r, decorators_yaml(T::declared())),
{
    let d = T::decorators();
    to_yaml(&d)
}

/// The YAML text of an instance's decorators: those registered for its type,
/// then its own.
pub fn to_yaml_for_instance(
    registry: &TypeRegistry,
    store: &InstanceStore,
    instance_type: &str,
    instance: usize,
) -> (r: Result<String, serde_yaml::Error>)
    ensures
        rendered_as(
            r,
            decorators_yaml(
                merged(
                    registered_or_empty(registry.view(), instance_type@),
                    stored_or_empty(store.view(), instance),
                ),
            ),
        ),
{
    let d = collect_decorators_for_instance(registry, store, instance_type, instance);
    to_yaml(&d)
}

} // verus!
