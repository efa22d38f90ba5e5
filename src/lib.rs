//! Export of in-memory data shapes into a relational atom/relation instance,
//! together with the layout decorators that describe how to render it.

pub mod text;
pub mod decorators;
pub mod builder;
pub mod jsondata;
pub mod value;
pub mod registry;
pub mod export;
pub mod validation;
pub mod annotations;
pub mod yaml;
pub mod laws;
pub mod cnd_annotations;
pub mod spytial_annotations;

pub use export::{export_json_instance, export_json_instance_with_decorators};
pub use jsondata::{IAtom, IRelation, ITuple, JsonDataInstance};
pub use value::Shape;
