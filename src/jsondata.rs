//! The relational instance produced by an export: atoms and relations.

use vstd::prelude::*;
use crate::text::string_views;

verus! {

/// An exported instance: the atoms and the relations between them.
#[derive(Debug)]
pub struct JsonDataInstance {
    pub atoms: Vec<IAtom>,
    pub relations: Vec<IRelation>,
}

/// A node of the instance graph.
#[derive(Debug)]
pub struct IAtom {
    pub id: String,
    pub atom_type: String,
    pub label: String,
}

/// One row of a relation: atom ids (or positions) with a type tag for each.
#[derive(Debug)]
pub struct ITuple {
    pub atoms: Vec<String>,
    pub types: Vec<String>,
}

/// A named relation: its column types and its rows.
#[derive(Debug)]
pub struct IRelation {
    pub id: String,
    pub name: String,
    pub types: Vec<String>,
    pub tuples: Vec<ITuple>,
}

/// An atom as plain values.
pub struct AtomV {
    pub id: Seq<char>,
    pub atom_type: Seq<char>,
    pub label: Seq<char>,
}

/// A tuple as plain values.
pub struct TupleV {
    pub atoms: Seq<Seq<char>>,
    pub types: Seq<Seq<char>>,
}

/// A relation as plain values.
pub struct RelationV {
    pub id: Seq<char>,
    pub name: Seq<char>,
    pub types: Seq<Seq<char>>,
    pub tuples: Seq<TupleV>,
}

/// An instance as plain values.
pub struct InstanceV {
    pub atoms: Seq<AtomV>,
    pub relations: Seq<RelationV>,
}

impl View for IAtom {
    type V = AtomV;

    open spec fn view(&self) -> AtomV {
        AtomV { id: self.id@, atom_type: self.atom_type@, label: self.label@ }
    }
}

impl View for ITuple {
    type V = TupleV;

    open spec fn view(&self) -> TupleV {
        TupleV { atoms: string_views(self.atoms@), types: string_views(self.types@) }
    }
}

pub open spec fn tuple_views(v: Seq<ITuple>) -> Seq<TupleV> {
    v.map_values(|t: ITuple| t@)
}

pub open spec fn atom_views(v: Seq<IAtom>) -> Seq<AtomV> {
    v.map_values(|a: IAtom| a@)
}

impl View for IRelation {
    type V = RelationV;

    open spec fn view(&self) -> RelationV {
        RelationV {
            id: self.id@,
            name: self.name@,
            types: string_views(self.types@),
            tuples: tuple_views(self.tuples@),
        }
    }
}

pub open spec fn relation_views(v: Seq<IRelation>) -> Seq<RelationV> {
    v.map_values(|r: IRelation| r@)
}

impl View for JsonDataInstance {
    type V = InstanceV;

    open spec fn view(&self) -> InstanceV {
        InstanceV { atoms: atom_views(self.atoms@), relations: relation_views(self.relations@) }
    }
}

} // verus!
