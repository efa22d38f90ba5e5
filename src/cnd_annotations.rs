//! Decorators, their builder, the type registry, instance annotations,
//! validation and YAML rendering, gathered under one path.

pub use crate::annotations::{
    Annotation, AnnotationBuilder, InstanceStore, ParamBag, ParamValue, annotate_instance,
    collect_decorators_for_instance, collect_instance_only_decorators, substitute_self_reference,
};
pub use crate::builder::CndDecoratorsBuilder;
pub use crate::decorators::{
    AtomColorDirective, AtomColorParams, AttributeDirective, AttributeParams, CndDecorators,
    Constraint, CyclicConstraint, CyclicParams, Directive, EdgeColorDirective, EdgeColorParams,
    FlagDirective, GroupConstraint, GroupParams, HideAtomDirective, HideAtomParams,
    HideFieldDirective, HideFieldParams, IconDirective, IconParams, InferredEdgeDirective,
    InferredEdgeParams, OrientationConstraint, OrientationParams, ProjectionDirective,
    ProjectionParams, SizeDirective, SizeParams, merge,
};
pub use crate::registry::{
    HasCndDecorators, TypeRegistry, ensure_types_registered, get_type_decorators,
    register_type_decorators, register_types, register_types2, register_types3,
};
pub use crate::validation::{
    ConstraintParamDef, ParamSet, ParamTable, get_constraint_params, get_directive_params,
    validate_params,
};
pub use crate::yaml::{to_yaml, to_yaml_for_instance, to_yaml_for_type};
