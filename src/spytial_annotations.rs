//! The decorator API under its alternative names.

pub use crate::cnd_annotations::{
    Annotation, AnnotationBuilder, CndDecorators as SpytialDecorators,
    CndDecoratorsBuilder as SpytialDecoratorsBuilder, Constraint, Directive,
    HasCndDecorators as HasSpytialDecorators, InstanceStore, TypeRegistry, annotate_instance,
    collect_decorators_for_instance, collect_instance_only_decorators, ensure_types_registered,
    get_constraint_params, get_directive_params, get_type_decorators, register_type_decorators,
    to_yaml, to_yaml_for_instance, to_yaml_for_type, validate_params,
};
