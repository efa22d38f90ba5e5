//! The structural exporter: walks a [`Shape`] and emits atoms and relations.
//!
//! Rules by shape:
//! - scalars become one fresh atom whose type is the scalar's precise kind;
//! - booleans, the absent marker, unit, unit structs and unit variants are
//!   singletons: one atom per (type, label) for the whole export;
//! - sequences, tuples, tuple structs and tuple variants get one container atom
//!   and one tuple `(container, position, element)` per element, in `idx`,
//!   `tuple_idx`, `Name.idx` and `Enum::Case.idx` respectively;
//! - mappings get one container atom and one `map_entry` tuple
//!   `(map, key, value)` per entry;
//! - structs get one atom and, per field, one tuple `(aggregate, value)` in the
//!   relation named after the field; an enum case with named fields puts them
//!   in `Enum::Case.field`;
//! - newtype structs and newtype variants relate their atom to the inner value
//!   in `value` and `variant_value`;
//! - a present optional value is exported as the value itself.
//! A relation is keyed by its name and its column types: every tuple of a
//! relation carries exactly the relation's column types.
//! The first time a struct type name is met, its registered decorators are
//! collected (unless it is the excluded root type).

use vstd::prelude::*;
use crate::decorators::{CndDecorators, DecoratorsV, empty_decorators, merged};
use crate::jsondata::{
    AtomV, IAtom, IRelation, ITuple, InstanceV, JsonDataInstance, RelationV, TupleV, atom_views,
    relation_views, tuple_views,
};
use crate::registry::{TypeRegistry, get_type_decorators};
use crate::text::{
    clone_strings, decimal, decimal_i64, decimal_u64, join, owned, push_char, signed_decimal,
    same_strings, str_eq, string_views, write_decimal, join_strings,
};
use crate::value::Shape;

verus! {

/// A singleton atom: its (type, label) key and its id.
pub struct SingletonV {
    pub kind: Seq<char>,
    pub label: Seq<char>,
    pub id: Seq<char>,
}

/// The running state of an export, as plain values.
pub struct ExportModel {
    pub atoms: Seq<AtomV>,
    pub relations: Seq<RelationV>,
    pub singletons: Seq<SingletonV>,
    pub visited: Seq<Seq<char>>,
    pub collected: DecoratorsV,
    pub exclude: Option<Seq<char>>,
}

/// The state at the start of an export.
pub open spec fn initial_model(exclude: Option<Seq<char>>) -> ExportModel {
    ExportModel {
        atoms: Seq::empty(),
        relations: Seq::empty(),
        singletons: Seq::empty(),
        visited: Seq::empty(),
        collected: empty_decorators(),
        exclude,
    }
}

/// The id of the atom created `n`-th (from zero).
pub open spec fn atom_id(n: nat) -> Seq<char> {
    "atom"@ + decimal(n)
}

/// Adds a fresh atom; returns the new state and the atom's id.
pub open spec fn fresh_atom(st: ExportModel, kind: Seq<char>, label: Seq<char>) -> (
    ExportModel,
    Seq<char>,
) {
    let id = atom_id(st.atoms.len());
    (ExportModel { atoms: st.atoms.push(AtomV { id, atom_type: kind, label }), ..st }, id)
}

/// The index of the last singleton with the given key, or -1.
pub open spec fn find_singleton(s: Seq<SingletonV>, kind: Seq<char>, label: Seq<char>) -> int
    decreases s.len(),
{
    if s.len() == 0 {
        -1
    } else if s.last().kind == kind && s.last().label == label {
        s.len() - 1
    } else {
        find_singleton(s.drop_last(), kind, label)
    }
}

/// The atom of a singleton key: the cached one, or a fresh one that is cached.
pub open spec fn singleton(st: ExportModel, kind: Seq<char>, label: Seq<char>) -> (
    ExportModel,
    Seq<char>,
) {
    let i = find_singleton(st.singletons, kind, label);
    if i >= 0 {
        (st, st.singletons[i].id)
    } else {
        let (s1, id) = fresh_atom(st, kind, label);
        (ExportModel { singletons: s1.singletons.push(SingletonV { kind, label, id }), ..s1 }, id)
    }
}

/// The index of the last relation with the given name and column types, or -1.
pub open spec fn find_relation(rels: Seq<RelationV>, name: Seq<char>, types: Seq<Seq<char>>) -> int
    decreases rels.len(),
{
    if rels.len() == 0 {
        -1
    } else if rels.last().name == name && rels.last().types == types {
        rels.len() - 1
    } else {
        find_relation(rels.drop_last(), name, types)
    }
}

/// Adds a tuple to the relation of that name and those column types, creating
/// the relation when it does not exist yet. A relation is keyed by its name
/// together with its column types, so all its tuples carry its column types.
pub open spec fn add_tuple(
    st: ExportModel,
    name: Seq<char>,
    atoms: Seq<Seq<char>>,
    types: Seq<Seq<char>>,
) -> ExportModel {
    let i = find_relation(st.relations, name, types);
    let t = TupleV { atoms, types };
    if i >= 0 {
        let r = st.relations[i];
        ExportModel {
            relations: st.relations.update(i, RelationV { tuples: r.tuples.push(t), ..r }),
            ..st
        }
    } else {
        ExportModel {
            relations: st.relations.push(
                RelationV { id: name, name, types, tuples: seq![t] },
            ),
            ..st
        }
    }
}

/// Marks a struct type name as met, collecting its registered decorators the
/// first time; the excluded name is skipped.
pub open spec fn visit_type(st: ExportModel, name: Seq<char>, reg: Map<Seq<char>, DecoratorsV>) -> ExportModel {
    if st.exclude == Some(name) || st.visited.contains(name) {
        st
    } else if reg.contains_key(name) {
        ExportModel { visited: st.visited.push(name), collected: merged(st.collected, reg[name]), ..st }
    } else {
        ExportModel { visited: st.visited.push(name), ..st }
    }
}

pub open spec fn bool_text(b: bool) -> Seq<char> {
    if b {
        "true"@
    } else {
        "false"@
    }
}

/// The rendering of a byte block: its decimal values in brackets.
pub open spec fn bytes_text(b: Seq<u8>) -> Seq<char> {
    "["@ + join(b.map_values(|x: u8| decimal(x as nat)), ", "@) + "]"@
}

/// The prefix of the relations that hold the payload of an enum case:
/// `Enum::Case.`.
pub open spec fn payload_scope(e: Seq<char>, var: Seq<char>) -> Seq<char> {
    e + "::"@ + var + "."@
}

/// A container label such as `seq[3]`.
pub open spec fn sized_label(prefix: Seq<char>, n: nat) -> Seq<char> {
    prefix + "["@ + decimal(n) + "]"@
}

/// Exports one value; returns the new state and the id of the value's atom.
pub open spec fn emit(st: ExportModel, v: Shape, reg: Map<Seq<char>, DecoratorsV>) -> (
    ExportModel,
    Seq<char>,
)
    decreases v, 0nat,
{
    match v {
        Shape::Bool(b) => singleton(st, "bool"@, bool_text(b)),
        Shape::I8(x) => fresh_atom(st, "i8"@, signed_decimal(x as int)),
        Shape::I16(x) => fresh_atom(st, "i16"@, signed_decimal(x as int)),
        Shape::I32(x) => fresh_atom(st, "i32"@, signed_decimal(x as int)),
        Shape::I64(x) => fresh_atom(st, "i64"@, signed_decimal(x as int)),
        Shape::U8(x) => fresh_atom(st, "u8"@, decimal(x as nat)),
        Shape::U16(x) => fresh_atom(st, "u16"@, decimal(x as nat)),
        Shape::U32(x) => fresh_atom(st, "u32"@, decimal(x as nat)),
        Shape::U64(x) => fresh_atom(st, "u64"@, decimal(x as nat)),
        Shape::F32(t) => fresh_atom(st, "f32"@, t@),
        Shape::F64(t) => fresh_atom(st, "f64"@, t@),
        Shape::Char(c) => fresh_atom(st, "char"@, seq![c]),
        Shape::Str(s) => fresh_atom(st, "string"@, s@),
        Shape::Bytes(b) => fresh_atom(st, "bytes"@, bytes_text(b@)),
        Shape::Absent => singleton(st, "None"@, "None"@),
        Shape::Present(inner) => emit(st, *inner, reg),
        Shape::Unit => singleton(st, "unit"@, "()"@),
        Shape::UnitStruct(name) => singleton(st, "unit_struct"@, name@),
        Shape::UnitVariant(e, var) => singleton(st, e@, var@),
        Shape::NewtypeStruct(name, inner) => {
            let (s1, sid) = fresh_atom(st, "newtype_struct"@, name@);
            let (s2, iid) = emit(s1, *inner, reg);
            (add_tuple(s2, "value"@, seq![sid, iid], seq!["newtype_struct"@, "atom"@]), sid)
        },
        Shape::NewtypeVariant(e, var, inner) => {
            let (s1, vid) = fresh_atom(st, e@, var@);
            let (s2, iid) = emit(s1, *inner, reg);
            (add_tuple(s2, "variant_value"@, seq![vid, iid], seq!["variant"@, "atom"@]), vid)
        },
        Shape::Sequence(items) => {
            let (s1, cid) = fresh_atom(st, "sequence"@, sized_label("seq"@, items@.len()));
            (emit_items(s1, cid, "idx"@, "sequence"@, items@, items@.len(), reg), cid)
        },
        Shape::Tuple(items) => {
            let (s1, cid) = fresh_atom(st, "tuple"@, sized_label("tuple"@, items@.len()));
            (emit_items(s1, cid, "tuple_idx"@, "tuple"@, items@, items@.len(), reg), cid)
        },
        Shape::TupleStruct(name, items) => {
            let (s1, cid) = fresh_atom(st, "tuple_struct"@, name@);
            (emit_items(s1, cid, name@ + ".idx"@, "tuple_struct"@, items@, items@.len(), reg), cid)
        },
        Shape::TupleVariant(e, var, items) => {
            let (s1, cid) = fresh_atom(st, e@, var@);
            (emit_items(s1, cid, payload_scope(e@, var@) + "idx"@, "variant"@, items@, items@.len(), reg), cid)
        },
        Shape::Mapping(entries) => {
            let (s1, cid) = fresh_atom(st, "map"@, sized_label("map"@, entries@.len()));
            (emit_entries(s1, cid, entries@, entries@.len(), reg), cid)
        },
        Shape::Struct(name, fields) => {
            let (s1, cid) = fresh_atom(st, name@, name@);
            let s2 = visit_type(s1, name@, reg);
            (emit_fields(s2, cid, Seq::empty(), "struct"@, fields@, fields@.len(), reg), cid)
        },
        Shape::StructVariant(e, var, fields) => {
            let (s1, cid) = fresh_atom(st, e@, var@);
            (emit_fields(s1, cid, payload_scope(e@, var@), "variant"@, fields@, fields@.len(), reg), cid)
        },
    }
}

/// Exports the first `n` elements of a positional container, each followed by
/// its tuple `(container, position, element)` in the relation `rel`.
pub open spec fn emit_items(
    st: ExportModel,
    cid: Seq<char>,
    rel: Seq<char>,
    tag: Seq<char>,
    items: Seq<Shape>,
    n: nat,
    reg: Map<Seq<char>, DecoratorsV>,
) -> ExportModel
    decreases items, n,
{
    if n == 0 || n > items.len() {
        st
    } else {
        let s1 = emit_items(st, cid, rel, tag, items, (n - 1) as nat, reg);
        let (s2, eid) = emit(s1, items[n - 1], reg);
        add_tuple(
            s2,
            rel,
            seq![cid, decimal((n - 1) as nat), eid],
            seq![tag, "index"@, "atom"@],
        )
    }
}

/// Exports the first `n` entries of a mapping: key, then value, then the
/// `map_entry` tuple.
pub open spec fn emit_entries(
    st: ExportModel,
    cid: Seq<char>,
    entries: Seq<(Shape, Shape)>,
    n: nat,
    reg: Map<Seq<char>, DecoratorsV>,
) -> ExportModel
    decreases entries, n,
{
    if n == 0 || n > entries.len() {
        st
    } else {
        let s1 = emit_entries(st, cid, entries, (n - 1) as nat, reg);
        let (s2, kid) = emit(s1, entries[n - 1].0, reg);
        let (s3, vid) = emit(s2, entries[n - 1].1, reg);
        add_tuple(s3, "map_entry"@, seq![cid, kid, vid], seq!["map"@, "atom"@, "atom"@])
    }
}

/// Exports the first `n` fields of an aggregate, each followed by a tuple in
/// the relation named after the field, behind `prefix` (empty for a struct,
/// the case's scope for an enum case).
pub open spec fn emit_fields(
    st: ExportModel,
    cid: Seq<char>,
    prefix: Seq<char>,
    tag: Seq<char>,
    fields: Seq<(String, Shape)>,
    n: nat,
    reg: Map<Seq<char>, DecoratorsV>,
) -> ExportModel
    decreases fields, n,
{
    if n == 0 || n > fields.len() {
        st
    } else {
        let s1 = emit_fields(st, cid, prefix, tag, fields, (n - 1) as nat, reg);
        let (s2, fid) = emit(s1, fields[n - 1].1, reg);
        add_tuple(s2, prefix + fields[n - 1].0@, seq![cid, fid], seq![tag, "atom"@])
    }
}

/// The instance that an export state holds.
pub open spec fn instance_of(st: ExportModel) -> InstanceV {
    InstanceV { atoms: st.atoms, relations: st.relations }
}

/// The state after exporting `v` from scratch.
pub open spec fn exported(v: Shape, exclude: Option<Seq<char>>, reg: Map<Seq<char>, DecoratorsV>) -> ExportModel {
    emit(initial_model(exclude), v, reg).0
}

/// Exports a value into atoms and relations.
pub fn export_json_instance(value: &Shape) -> (r: JsonDataInstance)
    ensures
        r@ == instance_of(exported(*value, None, Map::empty())),
{
    let registry = TypeRegistry::new();
    let mut serializer = JsonDataSerializer::new(None);
    serializer.emit_value(value, &registry);
    serializer.finish().0
}

/// Exports a value into atoms and relations, and collects the registered
/// decorators of every struct type met on the way, except `root_type`.
pub fn export_json_instance_with_decorators(
    value: &Shape,
    root_type: &str,
    registry: &TypeRegistry,
) -> (r: (JsonDataInstance, CndDecorators))
    ensures
        r.0@ == instance_of(exported(*value, Some(root_type@), registry.view())),
        r.1@ == exported(*value, Some(root_type@), registry.view()).collected,
{
    let mut serializer = JsonDataSerializer::new(Some(root_type));
    serializer.emit_value(value, registry);
    serializer.finish()
}

struct SingletonEntry {
    kind: String,
    label: String,
    id: String,
}

impl View for SingletonEntry {
    type V = SingletonV;

    closed spec fn view(&self) -> SingletonV {
        SingletonV { kind: self.kind@, label: self.label@, id: self.id@ }
    }
}

spec fn singleton_views(v: Seq<SingletonEntry>) -> Seq<SingletonV> {
    v.map_values(|e: SingletonEntry| e@)
}

/// The exporter's running state: atoms, relations, the singleton cache, and
/// the decorators collected from the struct types met so far.
pub struct JsonDataSerializer {
    atoms: Vec<IAtom>,
    relations: Vec<IRelation>,
    collected_decorators: CndDecorators,
    visited_types: Vec<String>,
    exclude_type: Option<String>,
    singleton_atoms: Vec<SingletonEntry>,
}

spec fn exclude_view(o: Option<String>) -> Option<Seq<char>> {
    match o {
        Some(s) => Some(s@),
        None => None,
    }
}

fn strings2(a: String, b: String) -> (r: Vec<String>)
    ensures
        string_views(r@) == seq![a@, b@],
{
    let mut v: Vec<String> = Vec::new();
    v.push(a);
    v.push(b);
    proof {
        assert(string_views(v@) =~= seq![a@, b@]);
    }
    v
}

fn strings3(a: String, b: String, c: String) -> (r: Vec<String>)
    ensures
        string_views(r@) == seq![a@, b@, c@],
{
    let mut v: Vec<String> = Vec::new();
    v.push(a);
    v.push(b);
    v.push(c);
    proof {
        assert(string_views(v@) =~= seq![a@, b@, c@]);
    }
    v
}

fn sized_text(prefix: &str, n: usize) -> (r: String)
    ensures
        r@ == sized_label(prefix@, n as nat),
{
    let mut s = owned(prefix);
    push_char(&mut s, '[');
    write_decimal(&mut s, n as u64);
    push_char(&mut s, ']');
    proof {
        reveal_strlit("[");
        reveal_strlit("]");
        assert(s@ =~= sized_label(prefix@, n as nat));
    }
    s
}

fn scope_text(e: &String, var: &String) -> (r: String)
    ensures
        r@ == payload_scope(e@, var@),
{
    let mut s = e.clone();
    s.append("::");
    s.append(var.as_str());
    s.append(".");
    s
}

fn bytes_label(b: &Vec<u8>) -> (r: String)
    ensures
        r@ == bytes_text(b@),
{
    let mut parts: Vec<String> = Vec::new();
    let mut i: usize = 0;
    while i < b.len()
        invariant
            i <= b@.len(),
            string_views(parts@) == b@.take(i as int).map_values(|x: u8| decimal(x as nat)),
        decreases b@.len() - i,
    {
        let ghost before = parts@;
        parts.push(decimal_u64(b[i] as u64));
        proof {
            assert(string_views(parts@) =~= string_views(before).push(decimal(b@[i as int] as nat)));
            assert(b@.take(i + 1).map_values(|x: u8| decimal(x as nat)) =~= b@.take(
                i as int,
            ).map_values(|x: u8| decimal(x as nat)).push(decimal(b@[i as int] as nat)));
        }
        i = i + 1;
    }
    proof {
        assert(b@.take(i as int) =~= b@);
    }
    let mut s = owned("[");
    let inner = join_strings(parts.as_slice(), ", ");
    s.append(inner.as_str());
    s.append("]");
    s
}

impl JsonDataSerializer {
    /// The state as plain values.
    pub closed spec fn model(&self) -> ExportModel {
        ExportModel {
            atoms: atom_views(self.atoms@),
            relations: relation_views(self.relations@),
            singletons: singleton_views(self.singleton_atoms@),
            visited: string_views(self.visited_types@),
            collected: self.collected_decorators@,
            exclude: exclude_view(self.exclude_type),
        }
    }

    /// A fresh exporter; `exclude` names a struct type whose decorators are not
    /// collected.
    pub fn new(exclude: Option<&str>) -> (r: Self)
        ensures
            r.model() == initial_model(crate::text::opt_str_view(exclude)),
    {
        let exclude_type = match exclude {
            Some(e) => Some(owned(e)),
            None => None,
        };
        let r = JsonDataSerializer {
            atoms: Vec::new(),
            relations: Vec::new(),
            collected_decorators: CndDecorators::new(),
            visited_types: Vec::new(),
            exclude_type,
            singleton_atoms: Vec::new(),
        };
        proof {
            assert(r.model().atoms =~= Seq::<AtomV>::empty());
            assert(r.model().relations =~= Seq::<RelationV>::empty());
            assert(r.model().singletons =~= Seq::<SingletonV>::empty());
            assert(r.model().visited =~= Seq::<Seq<char>>::empty());
        }
        r
    }

    /// The id that the next atom gets: `atom` followed by the number of atoms
    /// emitted so far.
    pub fn fresh_id(&self) -> (id: String)
        ensures
            id@ == atom_id(self.model().atoms.len()),
    {
        let mut id = owned("atom");
        write_decimal(&mut id, self.atoms.len() as u64);
        id
    }

    /// Adds a fresh atom and returns its id.
    pub fn emit_atom(&mut self, kind: &str, label: &str) -> (id: String)
        ensures
            (final(self).model(), id@) == fresh_atom(old(self).model(), kind@, label@),
    {
        let id = self.fresh_id();
        let atom = IAtom { id: id.clone(), atom_type: owned(kind), label: owned(label) };
        let ghost before = self.atoms@;
        self.atoms.push(atom);
        proof {
            assert(atom_views(self.atoms@) =~= atom_views(before).push(atom@));
        }
        id
    }

    /// The atom of a singleton key, created and cached on first use.
    pub fn get_or_create_singleton(&mut self, kind: &str, label: &str) -> (id: String)
        ensures
            (final(self).model(), id@) == singleton(old(self).model(), kind@, label@),
    {
        let mut i = self.singleton_atoms.len();
        proof {
            assert(self.singleton_atoms@.take(i as int) =~= self.singleton_atoms@);
        }
        while i > 0
            invariant
                i <= self.singleton_atoms@.len(),
                self == old(self),
                find_singleton(singleton_views(self.singleton_atoms@), kind@, label@)
                    == find_singleton(singleton_views(self.singleton_atoms@.take(i as int)), kind@, label@),
            decreases i,
        {
            let e = &self.singleton_atoms[i - 1];
            proof {
                let t = self.singleton_atoms@.take(i as int);
                assert(singleton_views(t).drop_last() =~= singleton_views(self.singleton_atoms@.take(i - 1)));
            }
            if str_eq(e.kind.as_str(), kind) && str_eq(e.label.as_str(), label) {
                return e.id.clone();
            }
            i = i - 1;
        }
        proof {
            assert(singleton_views(self.singleton_atoms@.take(0)) =~= Seq::<SingletonV>::empty());
        }
        let id = self.emit_atom(kind, label);
        let entry = SingletonEntry { kind: owned(kind), label: owned(label), id: id.clone() };
        let ghost before = self.singleton_atoms@;
        self.singleton_atoms.push(entry);
        proof {
            assert(singleton_views(self.singleton_atoms@) =~= singleton_views(before).push(entry@));
        }
        id
    }

    /// Adds a tuple to the relation named `name`, creating it when absent.
    pub fn push_relation(&mut self, name: &str, atoms: Vec<String>, types: Vec<String>)
        ensures
            final(self).model() == add_tuple(
                old(self).model(),
                name@,
                string_views(atoms@),
                string_views(types@),
            ),
    {
        let ghost t = TupleV { atoms: string_views(atoms@), types: string_views(types@) };
        let mut i = self.relations.len();
        proof {
            assert(self.relations@.take(i as int) =~= self.relations@);
        }
        while i > 0
            invariant
                i <= self.relations@.len(),
                self == old(self),
                t == (TupleV { atoms: string_views(atoms@), types: string_views(types@) }),
                find_relation(relation_views(self.relations@), name@, string_views(types@))
                    == find_relation(
                    relation_views(self.relations@.take(i as int)),
                    name@,
                    string_views(types@),
                ),
            decreases i,
        {
            proof {
                let tk = self.relations@.take(i as int);
                assert(relation_views(tk).drop_last() =~= relation_views(
                    self.relations@.take(i - 1),
                ));
            }
            if str_eq(self.relations[i - 1].name.as_str(), name) && same_strings(
                &self.relations[i - 1].types,
                &types,
            ) {
                let ghost before = self.relations@;
                let mut rel = self.relations.remove(i - 1);
                let tuple = ITuple { atoms, types };
                let ghost old_tuples = rel.tuples@;
                rel.tuples.push(tuple);
                proof {
                    assert(rel.tuples@ == old_tuples.push(tuple));
                    assert(tuple_views(rel.tuples@) =~= tuple_views(old_tuples).push(t));
                }
                self.relations.insert(i - 1, rel);
                proof {
                    assert(self.relations@ =~= before.update(i - 1, rel));
                    assert(relation_views(self.relations@) =~= relation_views(before).update(
                        i - 1,
                        rel@,
                    ));
                }
                return;
            }
            i = i - 1;
        }
        proof {
            assert(relation_views(self.relations@.take(0)) =~= Seq::<RelationV>::empty());
        }
        let column_types = clone_strings(&types);
        let mut tuples: Vec<ITuple> = Vec::new();
        tuples.push(ITuple { atoms, types });
        let rel = IRelation { id: owned(name), name: owned(name), types: column_types, tuples };
        proof {
            assert(tuple_views(rel.tuples@) =~= seq![t]);
        }
        let ghost before = self.relations@;
        self.relations.push(rel);
        proof {
            assert(relation_views(self.relations@) =~= relation_views(before).push(rel@));
        }
    }

    /// Collects the registered decorators of a struct type the first time it
    /// is met, unless it is the excluded type.
    pub fn collect_decorators_for_type(&mut self, name: &str, registry: &TypeRegistry)
        ensures
            final(self).model() == visit_type(old(self).model(), name@, registry.view()),
    {
        if let Some(ex) = &self.exclude_type {
            if str_eq(ex.as_str(), name) {
                return;
            }
        }
        let mut i: usize = 0;
        while i < self.visited_types.len()
            invariant
                i <= self.visited_types@.len(),
                self == old(self),
                forall|k: int| 0 <= k < i ==> self.visited_types@[k]@ != name@,
            decreases self.visited_types@.len() - i,
        {
            if str_eq(self.visited_types[i].as_str(), name) {
                proof {
                    assert(string_views(self.visited_types@)[i as int] == name@);
                }
                return;
            }
            i = i + 1;
        }
        proof {
            assert(!string_views(self.visited_types@).contains(name@));
        }
        let ghost before = self.visited_types@;
        self.visited_types.push(owned(name));
        proof {
            assert(string_views(self.visited_types@) =~= string_views(before).push(name@));
        }
        if let Some(d) = get_type_decorators(registry, name) {
            self.collected_decorators.absorb(&d);
        }
    }

    /// The atoms and relations emitted so far, and the decorators collected.
    pub fn finish(self) -> (r: (JsonDataInstance, CndDecorators))
        ensures
            r.0@ == instance_of(self.model()),
            r.1@ == self.model().collected,
    {
        (JsonDataInstance { atoms: self.atoms, relations: self.relations }, self.collected_decorators)
    }

    /// Exports one value and returns the id of its atom.
    pub fn emit_value(&mut self, v: &Shape, registry: &TypeRegistry) -> (id: String)
        ensures
            (final(self).model(), id@) == emit(old(self).model(), *v, registry.view()),
        decreases v, 0nat,
    {
        match v {
            Shape::Bool(b) => {
                let label = if *b {
                    owned("true")
                } else {
                    owned("false")
                };
                self.get_or_create_singleton("bool", label.as_str())
            },
            Shape::I8(x) => self.emit_atom("i8", decimal_i64(*x as i64).as_str()),
            Shape::I16(x) => self.emit_atom("i16", decimal_i64(*x as i64).as_str()),
            Shape::I32(x) => self.emit_atom("i32", decimal_i64(*x as i64).as_str()),
            Shape::I64(x) => self.emit_atom("i64", decimal_i64(*x).as_str()),
            Shape::U8(x) => self.emit_atom("u8", decimal_u64(*x as u64).as_str()),
            Shape::U16(x) => self.emit_atom("u16", decimal_u64(*x as u64).as_str()),
            Shape::U32(x) => self.emit_atom("u32", decimal_u64(*x as u64).as_str()),
            Shape::U64(x) => self.emit_atom("u64", decimal_u64(*x).as_str()),
            Shape::F32(t) => self.emit_atom("f32", t.as_str()),
            Shape::F64(t) => self.emit_atom("f64", t.as_str()),
            Shape::Char(c) => {
                let mut label = String::new();
                push_char(&mut label, *c);
                proof {
                    assert(label@ =~= seq![*c]);
                }
                self.emit_atom("char", label.as_str())
            },
            Shape::Str(s) => self.emit_atom("string", s.as_str()),
            Shape::Bytes(b) => self.emit_atom("bytes", bytes_label(b).as_str()),
            Shape::Absent => self.get_or_create_singleton("None", "None"),
            Shape::Present(inner) => self.emit_value(&**inner, registry),
            Shape::Unit => self.get_or_create_singleton("unit", "()"),
            Shape::UnitStruct(name) => self.get_or_create_singleton("unit_struct", name.as_str()),
            Shape::UnitVariant(e, var) => self.get_or_create_singleton(e.as_str(), var.as_str()),
            Shape::NewtypeStruct(name, inner) => {
                let sid = self.emit_atom("newtype_struct", name.as_str());
                let iid = self.emit_value(&**inner, registry);
                self.push_relation(
                    "value",
                    strings2(sid.clone(), iid),
                    strings2(owned("newtype_struct"), owned("atom")),
                );
                sid
            },
            Shape::NewtypeVariant(e, var, inner) => {
                let vid = self.emit_atom(e.as_str(), var.as_str());
                let iid = self.emit_value(&**inner, registry);
                self.push_relation(
                    "variant_value",
                    strings2(vid.clone(), iid),
                    strings2(owned("variant"), owned("atom")),
                );
                vid
            },
            Shape::Sequence(items) => {
                let cid = self.emit_atom("sequence", sized_text("seq", items.len()).as_str());
                self.emit_items(&cid, "idx", "sequence", items, registry);
                cid
            },
            Shape::Tuple(items) => {
                let cid = self.emit_atom("tuple", sized_text("tuple", items.len()).as_str());
                self.emit_items(&cid, "tuple_idx", "tuple", items, registry);
                cid
            },
            Shape::TupleStruct(name, items) => {
                let cid = self.emit_atom("tuple_struct", name.as_str());
                let mut rel = name.clone();
                rel.append(".idx");
                self.emit_items(&cid, rel.as_str(), "tuple_struct", items, registry);
                cid
            },
            Shape::TupleVariant(e, var, items) => {
                let cid = self.emit_atom(e.as_str(), var.as_str());
                let mut rel = scope_text(e, var);
                rel.append("idx");
                self.emit_items(&cid, rel.as_str(), "variant", items, registry);
                cid
            },
            Shape::Mapping(entries) => {
                let cid = self.emit_atom("map", sized_text("map", entries.len()).as_str());
                self.emit_entries(&cid, entries, registry);
                cid
            },
            Shape::Struct(name, fields) => {
                let cid = self.emit_atom(name.as_str(), name.as_str());
                self.collect_decorators_for_type(name.as_str(), registry);
                proof {
                    reveal_strlit("");
                    assert(""@ =~= Seq::<char>::empty());
                }
                self.emit_fields(&cid, "", "struct", fields, registry);
                cid
            },
            Shape::StructVariant(e, var, fields) => {
                let cid = self.emit_atom(e.as_str(), var.as_str());
                let scope = scope_text(e, var);
                self.emit_fields(&cid, scope.as_str(), "variant", fields, registry);
                cid
            },
        }
    }

    /// Exports the elements of a positional container, in order, each with its
    /// `idx` tuple.
    pub fn emit_items(
        &mut self,
        cid: &String,
        rel: &str,
        tag: &str,
        items: &Vec<Shape>,
        registry: &TypeRegistry,
    )
        ensures
            final(self).model() == emit_items(
                old(self).model(),
                cid@,
                rel@,
                tag@,
                items@,
                items@.len(),
                registry.view(),
            ),
        decreases items, 0nat,
    {
        let mut i: usize = 0;
        while i < items.len()
            invariant
                i <= items@.len(),
                self.model() == emit_items(
                    old(self).model(),
                    cid@,
                    rel@,
                    tag@,
                    items@,
                    i as nat,
                    registry.view(),
                ),
            decreases items@.len() - i,
        {
            let eid = self.emit_value(&items[i], registry);
            self.push_relation(
                rel,
                strings3(cid.clone(), decimal_u64(i as u64), eid),
                strings3(owned(tag), owned("index"), owned("atom")),
            );
            i = i + 1;
        }
    }

    /// Exports the entries of a mapping, in order: key, value, `map_entry` tuple.
    pub fn emit_entries(&mut self, cid: &String, entries: &Vec<(Shape, Shape)>, registry: &TypeRegistry)
        ensures
            final(self).model() == emit_entries(
                old(self).model(),
                cid@,
                entries@,
                entries@.len(),
                registry.view(),
            ),
        decreases entries, 0nat,
    {
        let mut i: usize = 0;
        while i < entries.len()
            invariant
                i <= entries@.len(),
                self.model() == emit_entries(old(self).model(), cid@, entries@, i as nat, registry.view()),
            decreases entries@.len() - i,
        {
            let kid = self.emit_value(&entries[i].0, registry);
            let vid = self.emit_value(&entries[i].1, registry);
            self.push_relation(
                "map_entry",
                strings3(cid.clone(), kid, vid),
                strings3(owned("map"), owned("atom"), owned("atom")),
            );
            i = i + 1;
        }
    }

    /// Exports the fields of an aggregate, in order, each with a tuple in the
    /// relation named after the field.
    pub fn emit_fields(
        &mut self,
        cid: &String,
        prefix: &str,
        tag: &str,
        fields: &Vec<(String, Shape)>,
        registry: &TypeRegistry,
    )
        ensures
            final(self).model() == emit_fields(
                old(self).model(),
                cid@,
                prefix@,
                tag@,
                fields@,
                fields@.len(),
                registry.view(),
            ),
        decreases fields, 0nat,
    {
        let mut i: usize = 0;
        while i < fields.len()
            invariant
                i <= fields@.len(),
                self.model() == emit_fields(
                    old(self).model(),
                    cid@,
                    prefix@,
                    tag@,
                    fields@,
                    i as nat,
                    registry.view(),
                ),
            decreases fields@.len() - i,
        {
            let fid = self.emit_value(&fields[i].1, registry);
            let mut rel = owned(prefix);
            rel.append(fields[i].0.as_str());
            self.push_relation(
                rel.as_str(),
                strings2(cid.clone(), fid),
                strings2(owned(tag), owned("atom")),
            );
            i = i + 1;
        }
    }
}

} // verus!
