//! Decorators: layout constraints and visual directives attached to a type or
//! to an instance, their builder, and the merge of two decorator sets.

use vstd::prelude::*;
use crate::text::{clone_strings, string_views};

verus! {

/// Layout constraints and visual directives, each list in the order in which
/// its entries were added.
#[derive(Debug, PartialEq)]
pub struct CndDecorators {
    pub constraints: Vec<Constraint>,
    pub directives: Vec<Directive>,
}

/// Layout constraints.
#[derive(Debug, PartialEq)]
pub enum Constraint {
    Orientation(OrientationConstraint),
    Cyclic(CyclicConstraint),
    Group(GroupConstraint),
}

/// Visual and structural directives.
#[derive(Debug, PartialEq)]
pub enum Directive {
    AtomColor(AtomColorDirective),
    Size(SizeDirective),
    Icon(IconDirective),
    EdgeColor(EdgeColorDirective),
    Projection(ProjectionDirective),
    Attribute(AttributeDirective),
    HideField(HideFieldDirective),
    HideAtom(HideAtomDirective),
    InferredEdge(InferredEdgeDirective),
    Flag(FlagDirective),
}

#[derive(Debug, PartialEq)]
pub struct OrientationConstraint {
    pub orientation: OrientationParams,
}

#[derive(Debug, PartialEq)]
pub struct OrientationParams {
    pub selector: String,
    pub directions: Vec<String>,
}

#[derive(Debug, PartialEq)]
pub struct CyclicConstraint {
    pub cyclic: CyclicParams,
}

#[derive(Debug, PartialEq)]
pub struct CyclicParams {
    pub selector: String,
    pub direction: String,
}

#[derive(Debug, PartialEq)]
pub struct GroupConstraint {
    pub group: GroupParams,
}

/// The two shapes of a grouping constraint.
#[derive(Debug, PartialEq)]
#[allow(inconsistent_fields)]
pub enum GroupParams {
    FieldBased { field: String, group_on: u32, add_to_group: u32, selector: Option<String> },
    SelectorBased { selector: String, name: String },
}

#[derive(Debug, PartialEq)]
pub struct AtomColorDirective {
    pub atom_color: AtomColorParams,
}

#[derive(Debug, PartialEq)]
pub struct AtomColorParams {
    pub selector: String,
    pub value: String,
}

#[derive(Debug, PartialEq)]
pub struct SizeDirective {
    pub size: SizeParams,
}

#[derive(Debug, PartialEq)]
pub struct SizeParams {
    pub selector: String,
    pub height: u32,
    pub width: u32,
}

#[derive(Debug, PartialEq)]
pub struct IconDirective {
    pub icon: IconParams,
}

#[derive(Debug, PartialEq)]
pub struct IconParams {
    pub selector: String,
    pub path: String,
    pub show_labels: bool,
}

#[derive(Debug, PartialEq)]
pub struct EdgeColorDirective {
    pub edge_color: EdgeColorParams,
}

#[derive(Debug, PartialEq)]
pub struct EdgeColorParams {
    pub field: String,
    pub value: String,
    pub selector: Option<String>,
}

#[derive(Debug, PartialEq)]
pub struct ProjectionDirective {
    pub projection: ProjectionParams,
}

#[derive(Debug, PartialEq)]
pub struct ProjectionParams {
    pub sig: String,
}

#[derive(Debug, PartialEq)]
pub struct AttributeDirective {
    pub attribute: AttributeParams,
}

#[derive(Debug, PartialEq)]
pub struct AttributeParams {
    pub field: String,
    pub selector: Option<String>,
}

#[derive(Debug, PartialEq)]
pub struct HideFieldDirective {
    pub hide_field: HideFieldParams,
}

#[derive(Debug, PartialEq)]
pub struct HideFieldParams {
    pub field: String,
    pub selector: Option<String>,
}

#[derive(Debug, PartialEq)]
pub struct HideAtomDirective {
    pub hide_atom: HideAtomParams,
}

#[derive(Debug, PartialEq)]
pub struct HideAtomParams {
    pub selector: String,
}

#[derive(Debug, PartialEq)]
pub struct InferredEdgeDirective {
    pub inferred_edge: InferredEdgeParams,
}

#[derive(Debug, PartialEq)]
pub struct InferredEdgeParams {
    pub name: String,
    pub selector: String,
}

#[derive(Debug, PartialEq)]
pub struct FlagDirective {
    pub flag: String,
}

/// What a constraint says, as plain values.
#[allow(inconsistent_fields)]
pub enum ConstraintV {
    Orientation { selector: Seq<char>, directions: Seq<Seq<char>> },
    Cyclic { selector: Seq<char>, direction: Seq<char> },
    GroupField {
        field: Seq<char>,
        group_on: u32,
        add_to_group: u32,
        selector: Option<Seq<char>>,
    },
    GroupSelector { selector: Seq<char>, name: Seq<char> },
}

/// What a directive says, as plain values.
#[allow(inconsistent_fields)]
pub enum DirectiveV {
    AtomColor { selector: Seq<char>, value: Seq<char> },
    Size { selector: Seq<char>, height: u32, width: u32 },
    Icon { selector: Seq<char>, path: Seq<char>, show_labels: bool },
    EdgeColor { field: Seq<char>, value: Seq<char>, selector: Option<Seq<char>> },
    Projection { sig: Seq<char> },
    Attribute { field: Seq<char>, selector: Option<Seq<char>> },
    HideField { field: Seq<char>, selector: Option<Seq<char>> },
    HideAtom { selector: Seq<char> },
    InferredEdge { name: Seq<char>, selector: Seq<char> },
    Flag { name: Seq<char> },
}

/// A decorator set as plain values.
pub struct DecoratorsV {
    pub constraints: Seq<ConstraintV>,
    pub directives: Seq<DirectiveV>,
}

pub open spec fn opt_view(o: Option<String>) -> Option<Seq<char>> {
    match o {
        Some(s) => Some(s@),
        None => None,
    }
}

impl View for Constraint {
    type V = ConstraintV;

    open spec fn view(&self) -> ConstraintV {
        match self {
            Constraint::Orientation(c) => ConstraintV::Orientation {
                selector: c.orientation.selector@,
                directions: string_views(c.orientation.directions@),
            },
            Constraint::Cyclic(c) => ConstraintV::Cyclic {
                selector: c.cyclic.selector@,
                direction: c.cyclic.direction@,
            },
            Constraint::Group(g) => match &g.group {
                GroupParams::FieldBased { field, group_on, add_to_group, selector } =>
                    ConstraintV::GroupField {
                    field: field@,
                    group_on: *group_on,
                    add_to_group: *add_to_group,
                    selector: opt_view(*selector),
                },
                GroupParams::SelectorBased { selector, name } => ConstraintV::GroupSelector {
                    selector: selector@,
                    name: name@,
                },
            },
        }
    }
}

impl View for Directive {
    type V = DirectiveV;

    open spec fn view(&self) -> DirectiveV {
        match self {
            Directive::AtomColor(d) => DirectiveV::AtomColor {
                selector: d.atom_color.selector@,
                value: d.atom_color.value@,
            },
            Directive::Size(d) => DirectiveV::Size {
                selector: d.size.selector@,
                height: d.size.height,
                width: d.size.width,
            },
            Directive::Icon(d) => DirectiveV::Icon {
                selector: d.icon.selector@,
                path: d.icon.path@,
                show_labels: d.icon.show_labels,
            },
            Directive::EdgeColor(d) => DirectiveV::EdgeColor {
                field: d.edge_color.field@,
                value: d.edge_color.value@,
                selector: opt_view(d.edge_color.selector),
            },
            Directive::Projection(d) => DirectiveV::Projection { sig: d.projection.sig@ },
            Directive::Attribute(d) => DirectiveV::Attribute {
                field: d.attribute.field@,
                selector: opt_view(d.attribute.selector),
            },
            Directive::HideField(d) => DirectiveV::HideField {
                field: d.hide_field.field@,
                selector: opt_view(d.hide_field.selector),
            },
            Directive::HideAtom(d) => DirectiveV::HideAtom { selector: d.hide_atom.selector@ },
            Directive::InferredEdge(d) => DirectiveV::InferredEdge {
                name: d.inferred_edge.name@,
                selector: d.inferred_edge.selector@,
            },
            Directive::Flag(d) => DirectiveV::Flag { name: d.flag@ },
        }
    }
}

pub open spec fn constraint_views(v: Seq<Constraint>) -> Seq<ConstraintV> {
    v.map_values(|c: Constraint| c@)
}

pub open spec fn directive_views(v: Seq<Directive>) -> Seq<DirectiveV> {
    v.map_values(|d: Directive| d@)
}

proof fn lemma_constraint_views_push(s: Seq<Constraint>, x: Constraint)
    ensures
        constraint_views(s.push(x)) == constraint_views(s).push(x@),
{
    assert(constraint_views(s.push(x)) =~= constraint_views(s).push(x@));
}

proof fn lemma_directive_views_push(s: Seq<Directive>, x: Directive)
    ensures
        directive_views(s.push(x)) == directive_views(s).push(x@),
{
    assert(directive_views(s.push(x)) =~= directive_views(s).push(x@));
}

impl View for CndDecorators {
    type V = DecoratorsV;

    open spec fn view(&self) -> DecoratorsV {
        DecoratorsV {
            constraints: constraint_views(self.constraints@),
            directives: directive_views(self.directives@),
        }
    }
}

/// The empty decorator set.
pub open spec fn empty_decorators() -> DecoratorsV {
    DecoratorsV { constraints: Seq::empty(), directives: Seq::empty() }
}

/// The constraints of `a` followed by those of `b`, and likewise the directives.
pub open spec fn merged(a: DecoratorsV, b: DecoratorsV) -> DecoratorsV {
    DecoratorsV {
        constraints: a.constraints + b.constraints,
        directives: a.directives + b.directives,
    }
}

fn clone_opt(o: &Option<String>) -> (r: Option<String>)
    ensures
        opt_view(r) == opt_view(*o),
{
    match o {
        Some(s) => Some(s.clone()),
        None => None,
    }
}

impl Clone for Constraint {
    fn clone(&self) -> (r: Self)
        ensures
            r@ == self@,
    {
        match self {
            Constraint::Orientation(c) => Constraint::Orientation(
                OrientationConstraint {
                    orientation: OrientationParams {
                        selector: c.orientation.selector.clone(),
                        directions: clone_strings(&c.orientation.directions),
                    },
                },
            ),
            Constraint::Cyclic(c) => Constraint::Cyclic(
                CyclicConstraint {
                    cyclic: CyclicParams {
                        selector: c.cyclic.selector.clone(),
                        direction: c.cyclic.direction.clone(),
                    },
                },
            ),
            Constraint::Group(g) => match &g.group {
                GroupParams::FieldBased { field, group_on, add_to_group, selector } =>
                    Constraint::Group(
                    GroupConstraint {
                        group: GroupParams::FieldBased {
                            field: field.clone(),
                            group_on: *group_on,
                            add_to_group: *add_to_group,
                            selector: clone_opt(selector),
                        },
                    },
                ),
                GroupParams::SelectorBased { selector, name } => Constraint::Group(
                    GroupConstraint {
                        group: GroupParams::SelectorBased {
                            selector: selector.clone(),
                            name: name.clone(),
                        },
                    },
                ),
            },
        }
    }
}

impl Clone for Directive {
    fn clone(&self) -> (r: Self)
        ensures
            r@ == self@,
    {
        match self {
            Directive::AtomColor(d) => Directive::AtomColor(
                AtomColorDirective {
                    atom_color: AtomColorParams {
                        selector: d.atom_color.selector.clone(),
                        value: d.atom_color.value.clone(),
                    },
                },
            ),
            Directive::Size(d) => Directive::Size(
                SizeDirective {
                    size: SizeParams {
                        selector: d.size.selector.clone(),
                        height: d.size.height,
                        width: d.size.width,
                    },
                },
            ),
            Directive::Icon(d) => Directive::Icon(
                IconDirective {
                    icon: IconParams {
                        selector: d.icon.selector.clone(),
                        path: d.icon.path.clone(),
                        show_labels: d.icon.show_labels,
                    },
                },
            ),
            Directive::EdgeColor(d) => Directive::EdgeColor(
                EdgeColorDirective {
                    edge_color: EdgeColorParams {
                        field: d.edge_color.field.clone(),
                        value: d.edge_color.value.clone(),
                        selector: clone_opt(&d.edge_color.selector),
                    },
                },
            ),
            Directive::Projection(d) => Directive::Projection(
                ProjectionDirective { projection: ProjectionParams { sig: d.projection.sig.clone() } },
            ),
            Directive::Attribute(d) => Directive::Attribute(
                AttributeDirective {
                    attribute: AttributeParams {
                        field: d.attribute.field.clone(),
                        selector: clone_opt(&d.attribute.selector),
                    },
                },
            ),
            Directive::HideField(d) => Directive::HideField(
                HideFieldDirective {
                    hide_field: HideFieldParams {
                        field: d.hide_field.field.clone(),
                        selector: clone_opt(&d.hide_field.selector),
                    },
                },
            ),
            Directive::HideAtom(d) => Directive::HideAtom(
                HideAtomDirective { hide_atom: HideAtomParams { selector: d.hide_atom.selector.clone() } },
            ),
            Directive::InferredEdge(d) => Directive::InferredEdge(
                InferredEdgeDirective {
                    inferred_edge: InferredEdgeParams {
                        name: d.inferred_edge.name.clone(),
                        selector: d.inferred_edge.selector.clone(),
                    },
                },
            ),
            Directive::Flag(d) => Directive::Flag(FlagDirective { flag: d.flag.clone() }),
        }
    }
}

impl CndDecorators {
    /// The empty decorator set.
    pub fn new() -> (r: Self)
        ensures
            r@ == empty_decorators(),
    {
        let r = CndDecorators { constraints: Vec::new(), directives: Vec::new() };
        proof {
            assert(r@.constraints =~= Seq::<ConstraintV>::empty());
            assert(r@.directives =~= Seq::<DirectiveV>::empty());
        }
        r
    }

    /// Appends the constraints and directives of `other`, in order.
    pub fn absorb(&mut self, other: &CndDecorators)
        ensures
            final(self)@ == merged(old(self)@, other@),
    {
        let mut i: usize = 0;
        while i < other.constraints.len()
            invariant
                i <= other.constraints@.len(),
                self.directives@ == old(self).directives@,
                constraint_views(self.constraints@) == constraint_views(old(self).constraints@)
                    + constraint_views(other.constraints@.take(i as int)),
            decreases other.constraints@.len() - i,
        {
            let c = other.constraints[i].clone();
            let ghost before = self.constraints@;
            self.constraints.push(c);
            proof {
                assert(other.constraints@.take(i + 1) =~= other.constraints@.take(i as int).push(
                    other.constraints@[i as int],
                ));
                lemma_constraint_views_push(before, c);
                lemma_constraint_views_push(
                    other.constraints@.take(i as int),
                    other.constraints@[i as int],
                );
                assert(constraint_views(self.constraints@) =~= constraint_views(
                    old(self).constraints@,
                ) + constraint_views(other.constraints@.take(i + 1)));
            }
            i = i + 1;
        }
        let mut j: usize = 0;
        while j < other.directives.len()
            invariant
                j <= other.directives@.len(),
                constraint_views(self.constraints@) == constraint_views(old(self).constraints@)
                    + constraint_views(other.constraints@),
                directive_views(self.directives@) == directive_views(old(self).directives@)
                    + directive_views(other.directives@.take(j as int)),
            decreases other.directives@.len() - j,
        {
            let d = other.directives[j].clone();
            let ghost before = self.directives@;
            self.directives.push(d);
            proof {
                assert(other.directives@.take(j + 1) =~= other.directives@.take(j as int).push(
                    other.directives@[j as int],
                ));
                lemma_directive_views_push(before, d);
                lemma_directive_views_push(
                    other.directives@.take(j as int),
                    other.directives@[j as int],
                );
                assert(directive_views(self.directives@) =~= directive_views(old(self).directives@)
                    + directive_views(other.directives@.take(j + 1)));
            }
            j = j + 1;
        }
        proof {
            assert(other.constraints@.take(i as int) =~= other.constraints@);
            assert(other.directives@.take(j as int) =~= other.directives@);
        }
    }
}

impl Clone for CndDecorators {
    fn clone(&self) -> (r: Self)
        ensures
            r@ == self@,
    {
        let mut r = CndDecorators::new();
        r.absorb(self);
        proof {
            assert(r@.constraints =~= self@.constraints);
            assert(r@.directives =~= self@.directives);
        }
        r
    }
}

impl Default for CndDecorators {
    fn default() -> (r: Self)
        ensures
            r@ == empty_decorators(),
    {
        CndDecorators::new()
    }
}

/// The decorators of `a` followed by those of `b`: both lists are concatenated,
/// nothing is removed or reordered.
pub fn merge(a: &CndDecorators, b: &CndDecorators) -> (r: CndDecorators)
    ensures
        r@ == merged(a@, b@),
{
    let mut r = a.clone();
    r.absorb(b);
    r
}

/// Merging is list concatenation: merging `a` with `b` and then with `c` gives
/// the lists of `a`, `b` and `c` one after the other, which is also what merging
/// `a` with the merge of `b` and `c` gives.
pub proof fn merge_is_concatenation(a: CndDecorators, b: CndDecorators, c: CndDecorators)
    ensures
        merged(merged(a@, b@), c@) == (DecoratorsV {
            constraints: a@.constraints + b@.constraints + c@.constraints,
            directives: a@.directives + b@.directives + c@.directives,
        }),
        merged(merged(a@, b@), c@) == merged(a@, merged(b@, c@)),
{
    assert(a@.constraints + b@.constraints + c@.constraints =~= a@.constraints + (b@.constraints
        + c@.constraints));
    assert(a@.directives + b@.directives + c@.directives =~= a@.directives + (b@.directives
        + c@.directives));
}

} // verus!
