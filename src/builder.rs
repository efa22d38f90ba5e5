//! A fluent builder of decorator sets: each call appends one constraint or
//! directive.

use vstd::prelude::*;
use crate::decorators::{
    AtomColorDirective, AtomColorParams, AttributeDirective, AttributeParams, CndDecorators,
    Constraint, ConstraintV, CyclicConstraint, CyclicParams, DecoratorsV, Directive, DirectiveV,
    EdgeColorDirective, EdgeColorParams, FlagDirective, GroupConstraint, GroupParams,
    HideAtomDirective, HideAtomParams, HideFieldDirective, HideFieldParams, IconDirective,
    IconParams, InferredEdgeDirective, InferredEdgeParams, OrientationConstraint,
    OrientationParams, ProjectionDirective, ProjectionParams, SizeDirective, SizeParams,
    constraint_views, directive_views, empty_decorators,
};
use crate::text::{owned, owned_all, str_views, opt_str_view, owned_opt};

verus! {

/// Builder for a decorator set.
#[derive(Debug)]
pub struct CndDecoratorsBuilder {
    constraints: Vec<Constraint>,
    directives: Vec<Directive>,
}

impl View for CndDecoratorsBuilder {
    type V = DecoratorsV;

    closed spec fn view(&self) -> DecoratorsV {
        DecoratorsV {
            constraints: constraint_views(self.constraints@),
            directives: directive_views(self.directives@),
        }
    }
}

impl CndDecoratorsBuilder {
    /// A builder with no entries.
    pub fn new() -> (r: Self)
        ensures
            r@ == empty_decorators(),
    {
        let r = CndDecoratorsBuilder { constraints: Vec::new(), directives: Vec::new() };
        proof {
            assert(r@.constraints =~= Seq::<ConstraintV>::empty());
            assert(r@.directives =~= Seq::<DirectiveV>::empty());
        }
        r
    }

    fn add_constraint(self, c: Constraint) -> (r: Self)
        ensures
            r@.constraints == self@.constraints.push(c@),
            r@.directives == self@.directives,
    {
        let mut b = self;
        b.constraints.push(c);
        proof {
            assert(constraint_views(b.constraints@) =~= constraint_views(self.constraints@).push(
                c@,
            ));
        }
        b
    }

    fn add_directive(self, d: Directive) -> (r: Self)
        ensures
            r@.directives == self@.directives.push(d@),
            r@.constraints == self@.constraints,
    {
        let mut b = self;
        b.directives.push(d);
        proof {
            assert(directive_views(b.directives@) =~= directive_views(self.directives@).push(d@));
        }
        b
    }

    /// Appends a relative-orientation constraint.
    pub fn orientation(self, selector: &str, directions: Vec<&str>) -> (r: Self)
        ensures
            r@.constraints == self@.constraints.push(
                ConstraintV::Orientation { selector: selector@, directions: str_views(directions@) },
            ),
            r@.directives == self@.directives,
    {
        let c = Constraint::Orientation(
            OrientationConstraint {
                orientation: OrientationParams {
                    selector: owned(selector),
                    directions: owned_all(&directions),
                },
            },
        );
        self.add_constraint(c)
    }

    /// Appends a cyclic-arrangement constraint.
    pub fn cyclic(self, selector: &str, direction: &str) -> (r: Self)
        ensures
            r@.constraints == self@.constraints.push(
                ConstraintV::Cyclic { selector: selector@, direction: direction@ },
            ),
            r@.directives == self@.directives,
    {
        let c = Constraint::Cyclic(
            CyclicConstraint {
                cyclic: CyclicParams { selector: owned(selector), direction: owned(direction) },
            },
        );
        self.add_constraint(c)
    }

    /// Appends a grouping constraint whose members are chosen by a field-index pair.
    pub fn group_field_based(
        self,
        field: &str,
        group_on: u32,
        add_to_group: u32,
        selector: Option<&str>,
    ) -> (r: Self)
        ensures
            r@.constraints == self@.constraints.push(
                ConstraintV::GroupField {
                    field: field@,
                    group_on,
                    add_to_group,
                    selector: opt_str_view(selector),
                },
            ),
            r@.directives == self@.directives,
    {
        let c = Constraint::Group(
            GroupConstraint {
                group: GroupParams::FieldBased {
                    field: owned(field),
                    group_on,
                    add_to_group,
                    selector: owned_opt(selector),
                },
            },
        );
        self.add_constraint(c)
    }

    /// Appends a grouping constraint whose members are chosen by a selector,
    /// under an explicit group name.
    pub fn group_selector_based(self, selector: &str, name: &str) -> (r: Self)
        ensures
            r@.constraints == self@.constraints.push(
                ConstraintV::GroupSelector { selector: selector@, name: name@ },
            ),
            r@.directives == self@.directives,
    {
        let c = Constraint::Group(
            GroupConstraint {
                group: GroupParams::SelectorBased { selector: owned(selector), name: owned(name) },
            },
        );
        self.add_constraint(c)
    }

    /// Appends an atom-color directive.
    pub fn atom_color(self, selector: &str, value: &str) -> (r: Self)
        ensures
            r@.directives == self@.directives.push(
                DirectiveV::AtomColor { selector: selector@, value: value@ },
            ),
            r@.constraints == self@.constraints,
    {
        let d = Directive::AtomColor(
            AtomColorDirective {
                atom_color: AtomColorParams { selector: owned(selector), value: owned(value) },
            },
        );
        self.add_directive(d)
    }

    /// Appends a size directive.
    pub fn size(self, selector: &str, height: u32, width: u32) -> (r: Self)
        ensures
            r@.directives == self@.directives.push(
                DirectiveV::Size { selector: selector@, height, width },
            ),
            r@.constraints == self@.constraints,
    {
        let d = Directive::Size(
            SizeDirective { size: SizeParams { selector: owned(selector), height, width } },
        );
        self.add_directive(d)
    }

    /// Appends an icon directive.
    pub fn icon(self, selector: &str, path: &str, show_labels: bool) -> (r: Self)
        ensures
            r@.directives == self@.directives.push(
                DirectiveV::Icon { selector: selector@, path: path@, show_labels },
            ),
            r@.constraints == self@.constraints,
    {
        let d = Directive::Icon(
            IconDirective {
                icon: IconParams { selector: owned(selector), path: owned(path), show_labels },
            },
        );
        self.add_directive(d)
    }

    /// Appends an edge-color directive.
    pub fn edge_color(self, field: &str, value: &str, selector: Option<&str>) -> (r: Self)
        ensures
            r@.directives == self@.directives.push(
                DirectiveV::EdgeColor {
                    field: field@,
                    value: value@,
                    selector: opt_str_view(selector),
                },
            ),
            r@.constraints == self@.constraints,
    {
        let d = Directive::EdgeColor(
            EdgeColorDirective {
                edge_color: EdgeColorParams {
                    field: owned(field),
                    value: owned(value),
                    selector: owned_opt(selector),
                },
            },
        );
        self.add_directive(d)
    }

    /// Appends a projection directive.
    pub fn projection(self, sig: &str) -> (r: Self)
        ensures
            r@.directives == self@.directives.push(DirectiveV::Projection { sig: sig@ }),
            r@.constraints == self@.constraints,
    {
        let d = Directive::Projection(
            ProjectionDirective { projection: ProjectionParams { sig: owned(sig) } },
        );
        self.add_directive(d)
    }

    /// Appends an attribute-as-label directive.
    pub fn attribute(self, field: &str, selector: Option<&str>) -> (r: Self)
        ensures
            r@.directives == self@.directives.push(
                DirectiveV::Attribute { field: field@, selector: opt_str_view(selector) },
            ),
            r@.constraints == self@.constraints,
    {
        let d = Directive::Attribute(
            AttributeDirective {
                attribute: AttributeParams { field: owned(field), selector: owned_opt(selector) },
            },
        );
        self.add_directive(d)
    }

    /// Appends a hide-field directive.
    pub fn hide_field(self, field: &str, selector: Option<&str>) -> (r: Self)
        ensures
            r@.directives == self@.directives.push(
                DirectiveV::HideField { field: field@, selector: opt_str_view(selector) },
            ),
            r@.constraints == self@.constraints,
    {
        let d = Directive::HideField(
            HideFieldDirective {
                hide_field: HideFieldParams { field: owned(field), selector: owned_opt(selector) },
            },
        );
        self.add_directive(d)
    }

    /// Appends a hide-atom directive.
    pub fn hide_atom(self, selector: &str) -> (r: Self)
        ensures
            r@.directives == self@.directives.push(DirectiveV::HideAtom { selector: selector@ }),
            r@.constraints == self@.constraints,
    {
        let d = Directive::HideAtom(
            HideAtomDirective { hide_atom: HideAtomParams { selector: owned(selector) } },
        );
        self.add_directive(d)
    }

    /// Appends an inferred-edge directive.
    pub fn inferred_edge(self, name: &str, selector: &str) -> (r: Self)
        ensures
            r@.directives == self@.directives.push(
                DirectiveV::InferredEdge { name: name@, selector: selector@ },
            ),
            r@.constraints == self@.constraints,
    {
        let d = Directive::InferredEdge(
            InferredEdgeDirective {
                inferred_edge: InferredEdgeParams { name: owned(name), selector: owned(selector) },
            },
        );
        self.add_directive(d)
    }

    /// Appends a free-form flag directive.
    pub fn flag(self, name: &str) -> (r: Self)
        ensures
            r@.directives == self@.directives.push(DirectiveV::Flag { name: name@ }),
            r@.constraints == self@.constraints,
    {
        let d = Directive::Flag(FlagDirective { flag: owned(name) });
        self.add_directive(d)
    }

    /// The decorator set built so far.
    pub fn build(self) -> (r: CndDecorators)
        ensures
            r@ == self@,
    {
        CndDecorators { constraints: self.constraints, directives: self.directives }
    }
}

} // verus!
