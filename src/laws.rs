//! Properties of every export, proved over the exporter's specification.

use vstd::prelude::*;
use crate::decorators::DecoratorsV;
use crate::export::{
    ExportModel, SingletonV, add_tuple, atom_id, emit, emit_entries, emit_fields,
    emit_items, exported, find_relation, payload_scope, find_singleton, fresh_atom, initial_model, singleton,
    visit_type,
};
use crate::jsondata::{AtomV, RelationV, TupleV};
use crate::text::{decimal, digit_char};
use crate::value::Shape;

verus! {

/// `a` is a prefix of `b`.
pub open spec fn is_prefix<A>(a: Seq<A>, b: Seq<A>) -> bool {
    a.len() <= b.len() && b.take(a.len() as int) == a
}

/// No two relations share both their name and their column types.
pub open spec fn names_unique(rels: Seq<RelationV>) -> bool {
    forall|i: int, j: int|
        0 <= i < j < rels.len() ==> !(rels[i].name == rels[j].name && rels[i].types == rels[j].types)
}

/// No two cached singletons share a (type, label) key.
pub open spec fn keys_unique(s: Seq<SingletonV>) -> bool {
    forall|i: int, j: int|
        0 <= i < j < s.len() ==> !(s[i].kind == s[j].kind && s[i].label == s[j].label)
}

/// The state invariants: relation keys and singleton keys are unique.
pub open spec fn sound(st: ExportModel) -> bool {
    names_unique(st.relations) && keys_unique(st.singletons)
}

/// `st2` comes after `st`: atoms and cached singletons are only appended to.
pub open spec fn extends(st: ExportModel, st2: ExportModel) -> bool {
    &&& is_prefix(st.atoms, st2.atoms)
    &&& is_prefix(st.singletons, st2.singletons)
    &&& st2.exclude == st.exclude
}

/// Every tuple of every relation carries exactly the relation's column types,
/// and as many atom ids as there are columns.
pub open spec fn tuples_typed(rels: Seq<RelationV>) -> bool {
    forall|i: int, k: int|
        0 <= i < rels.len() && 0 <= k < rels[i].tuples.len() ==> (#[trigger] rels[i].tuples[k]).types
            == rels[i].types && rels[i].tuples[k].atoms.len() == rels[i].types.len()
}

proof fn lemma_prefix_trans<A>(a: Seq<A>, b: Seq<A>, c: Seq<A>)
    requires
        is_prefix(a, b),
        is_prefix(b, c),
    ensures
        is_prefix(a, c),
{
    assert(c.take(b.len() as int).take(a.len() as int) =~= c.take(a.len() as int));
}

proof fn lemma_extends_trans(a: ExportModel, b: ExportModel, c: ExportModel)
    requires
        extends(a, b),
        extends(b, c),
    ensures
        extends(a, c),
{
    lemma_prefix_trans(a.atoms, b.atoms, c.atoms);
    lemma_prefix_trans(a.singletons, b.singletons, c.singletons);
}

proof fn lemma_prefix_push<A>(a: Seq<A>, x: A)
    ensures
        is_prefix(a, a.push(x)),
{
    assert(a.push(x).take(a.len() as int) =~= a);
}

proof fn lemma_prefix_refl<A>(a: Seq<A>)
    ensures
        is_prefix(a, a),
{
    assert(a.take(a.len() as int) =~= a);
}

proof fn lemma_find_relation(rels: Seq<RelationV>, name: Seq<char>, types: Seq<Seq<char>>)
    ensures
        -1 <= find_relation(rels, name, types) < rels.len(),
        find_relation(rels, name, types) >= 0 ==> rels[find_relation(rels, name, types)].name == name
            && rels[find_relation(rels, name, types)].types == types,
        find_relation(rels, name, types) == -1 ==> forall|i: int|
            0 <= i < rels.len() ==> !(rels[i].name == name && rels[i].types == types),
    decreases rels.len(),
{
    if rels.len() > 0 {
        lemma_find_relation(rels.drop_last(), name, types);
        if find_relation(rels, name, types) == -1 {
            assert forall|i: int| 0 <= i < rels.len() implies !(rels[i].name == name && rels[i].types
                == types) by {
                if i < rels.len() - 1 {
                    assert(rels.drop_last()[i] == rels[i]);
                }
            }
        }
    }
}

proof fn lemma_find_singleton(s: Seq<SingletonV>, kind: Seq<char>, label: Seq<char>)
    ensures
        -1 <= find_singleton(s, kind, label) < s.len(),
        find_singleton(s, kind, label) >= 0 ==> s[find_singleton(s, kind, label)].kind == kind
            && s[find_singleton(s, kind, label)].label == label,
        find_singleton(s, kind, label) == -1 ==> forall|i: int|
            0 <= i < s.len() ==> !(s[i].kind == kind && s[i].label == label),
    decreases s.len(),
{
    if s.len() > 0 {
        lemma_find_singleton(s.drop_last(), kind, label);
        if !(s.last().kind == kind && s.last().label == label) && find_singleton(
            s.drop_last(),
            kind,
            label,
        ) == -1 {
            assert forall|i: int| 0 <= i < s.len() implies !(s[i].kind == kind && s[i].label
                == label) by {
                if i < s.len() - 1 {
                    assert(s.drop_last()[i] == s[i]);
                }
            }
        }
    }
}

/// With unique keys, the cached entry of a key is found wherever it stands.
proof fn lemma_find_singleton_unique(s: Seq<SingletonV>, i: int)
    requires
        keys_unique(s),
        0 <= i < s.len(),
    ensures
        find_singleton(s, s[i].kind, s[i].label) == i,
{
    lemma_find_singleton(s, s[i].kind, s[i].label);
    let f = find_singleton(s, s[i].kind, s[i].label);
    if f != i {
        if f < i {
            assert(!(s[f].kind == s[i].kind && s[f].label == s[i].label));
        } else if f > i {
            assert(!(s[i].kind == s[f].kind && s[i].label == s[f].label));
        }
    }
}

proof fn lemma_fresh_atom(st: ExportModel)
    ensures
        forall|k: Seq<char>, l: Seq<char>|
            {
                let s2 = (#[trigger] fresh_atom(st, k, l)).0;
                &&& sound(st) ==> sound(s2)
                &&& extends(st, s2)
                &&& s2.relations == st.relations
                &&& s2.atoms.len() == st.atoms.len() + 1
            },
{
    assert forall|k: Seq<char>, l: Seq<char>| #[trigger] fresh_atom(st, k, l).0.atoms.len() >= 0 implies extends(
        st,
        fresh_atom(st, k, l).0,
    ) by {
        lemma_prefix_push(st.atoms, fresh_atom(st, k, l).0.atoms.last());
        lemma_prefix_refl(st.singletons);
    }
}

proof fn lemma_singleton_at(st: ExportModel, k: Seq<char>, l: Seq<char>)
    ensures
        ({
            let s2 = singleton(st, k, l).0;
            &&& sound(st) ==> sound(s2)
            &&& extends(st, s2)
            &&& s2.relations == st.relations
        }),
{
    lemma_find_singleton(st.singletons, k, l);
    lemma_prefix_refl(st.singletons);
    lemma_prefix_refl(st.atoms);
    if find_singleton(st.singletons, k, l) < 0 {
        let (s1, id) = fresh_atom(st, k, l);
        let s2 = singleton(st, k, l).0;
        lemma_prefix_push(st.atoms, s1.atoms.last());
        lemma_prefix_push(st.singletons, SingletonV { kind: k, label: l, id });
        if sound(st) {
            assert forall|i: int, j: int| 0 <= i < j < s2.singletons.len() implies !(
            s2.singletons[i].kind == s2.singletons[j].kind && s2.singletons[i].label
                == s2.singletons[j].label) by {
                if j == st.singletons.len() {
                    assert(!(st.singletons[i].kind == k && st.singletons[i].label == l));
                } else {
                    assert(s2.singletons[i] == st.singletons[i]);
                    assert(s2.singletons[j] == st.singletons[j]);
                }
            }
        }
    }
}

proof fn lemma_singleton(st: ExportModel)
    ensures
        forall|k: Seq<char>, l: Seq<char>|
            {
                let s2 = (#[trigger] singleton(st, k, l)).0;
                &&& sound(st) ==> sound(s2)
                &&& extends(st, s2)
                &&& s2.relations == st.relations
            },
{
    assert forall|k: Seq<char>, l: Seq<char>|
        {
            let s2 = (#[trigger] singleton(st, k, l)).0;
            &&& sound(st) ==> sound(s2)
            &&& extends(st, s2)
            &&& s2.relations == st.relations
        } by {
        lemma_singleton_at(st, k, l);
    }
}

proof fn lemma_add_tuple(st: ExportModel, name: Seq<char>, atoms: Seq<Seq<char>>, types: Seq<Seq<char>>)
    ensures
        ({
            let s2 = add_tuple(st, name, atoms, types);
            &&& sound(st) ==> sound(s2)
            &&& extends(st, s2)
            &&& (tuples_typed(st.relations) && atoms.len() == types.len()) ==> tuples_typed(
                s2.relations,
            )
        }),
{
    lemma_find_relation(st.relations, name, types);
    lemma_prefix_refl(st.atoms);
    lemma_prefix_refl(st.singletons);
    let s2 = add_tuple(st, name, atoms, types);
    let i = find_relation(st.relations, name, types);
    if sound(st) {
        assert forall|a: int, b: int| 0 <= a < b < s2.relations.len() implies !(
        s2.relations[a].name == s2.relations[b].name && s2.relations[a].types
            == s2.relations[b].types) by {
            if i < 0 && b == st.relations.len() {
                assert(!(st.relations[a].name == name && st.relations[a].types == types));
            } else {
                assert(s2.relations[a].name == st.relations[a].name);
                assert(s2.relations[a].types == st.relations[a].types);
                assert(s2.relations[b].name == st.relations[b].name);
                assert(s2.relations[b].types == st.relations[b].types);
            }
        }
    }
    if tuples_typed(st.relations) && atoms.len() == types.len() {
        assert forall|j: int, k: int|
            0 <= j < s2.relations.len() && 0 <= k < s2.relations[j].tuples.len() implies (
            #[trigger] s2.relations[j].tuples[k]).types == s2.relations[j].types
                && s2.relations[j].tuples[k].atoms.len() == s2.relations[j].types.len() by {
            if i >= 0 && j == i {
                if k < s2.relations[j].tuples.len() - 1 {
                    assert(s2.relations[j].tuples[k] == st.relations[i].tuples[k]);
                }
            } else if i < 0 && j == st.relations.len() {
                assert(s2.relations[j].tuples =~= seq![TupleV { atoms, types }]);
            } else {
                assert(s2.relations[j] == st.relations[j]);
            }
        }
    }
}

proof fn lemma_visit_type(st: ExportModel, name: Seq<char>, reg: Map<Seq<char>, DecoratorsV>)
    ensures
        ({
            let s2 = visit_type(st, name, reg);
            &&& sound(st) ==> sound(s2)
            &&& extends(st, s2)
            &&& s2.relations == st.relations
        }),
{
    lemma_prefix_refl(st.atoms);
    lemma_prefix_refl(st.singletons);
}

/// What one export step keeps: the invariants, the append-only atoms and
/// cache, and the typing of the tuples.
pub open spec fn step_ok(st: ExportModel, s2: ExportModel) -> bool {
    &&& sound(st) ==> sound(s2)
    &&& extends(st, s2)
    &&& tuples_typed(st.relations) ==> tuples_typed(s2.relations)
}

proof fn lemma_step_trans(a: ExportModel, b: ExportModel, c: ExportModel)
    requires
        step_ok(a, b),
        step_ok(b, c),
    ensures
        step_ok(a, c),
{
    lemma_extends_trans(a, b, c);
}

proof fn lemma_emit(st: ExportModel, v: Shape, reg: Map<Seq<char>, DecoratorsV>)
    ensures
        step_ok(st, emit(st, v, reg).0),
    decreases v, 0nat,
{
    lemma_fresh_atom(st);
    lemma_singleton(st);
    match v {
        Shape::Present(inner) => lemma_emit(st, *inner, reg),
        Shape::NewtypeStruct(name, inner) => {
            let (s1, sid) = fresh_atom(st, "newtype_struct"@, name@);
            lemma_emit(s1, *inner, reg);
            let (s2, iid) = emit(s1, *inner, reg);
            lemma_add_tuple(s2, "value"@, seq![sid, iid], seq!["newtype_struct"@, "atom"@]);
            let s3 = add_tuple(s2, "value"@, seq![sid, iid], seq!["newtype_struct"@, "atom"@]);
            lemma_step_trans(st, s1, s2);
            lemma_step_trans(st, s2, s3);
        },
        Shape::NewtypeVariant(e, var, inner) => {
            let (s1, vid) = fresh_atom(st, e@, var@);
            lemma_emit(s1, *inner, reg);
            let (s2, iid) = emit(s1, *inner, reg);
            lemma_add_tuple(s2, "variant_value"@, seq![vid, iid], seq!["variant"@, "atom"@]);
            let s3 = add_tuple(s2, "variant_value"@, seq![vid, iid], seq!["variant"@, "atom"@]);
            lemma_step_trans(st, s1, s2);
            lemma_step_trans(st, s2, s3);
        },
        Shape::Sequence(items) => {
            let (s1, cid) = fresh_atom(st, "sequence"@, crate::export::sized_label("seq"@, items@.len()));
            lemma_items(s1, cid, "idx"@, "sequence"@, items@, items@.len(), reg);
            lemma_step_trans(st, s1, emit(st, v, reg).0);
        },
        Shape::Tuple(items) => {
            let (s1, cid) = fresh_atom(st, "tuple"@, crate::export::sized_label("tuple"@, items@.len()));
            lemma_items(s1, cid, "tuple_idx"@, "tuple"@, items@, items@.len(), reg);
            lemma_step_trans(st, s1, emit(st, v, reg).0);
        },
        Shape::TupleStruct(name, items) => {
            let (s1, cid) = fresh_atom(st, "tuple_struct"@, name@);
            lemma_items(s1, cid, name@ + ".idx"@, "tuple_struct"@, items@, items@.len(), reg);
            lemma_step_trans(st, s1, emit(st, v, reg).0);
        },
        Shape::TupleVariant(e, var, items) => {
            let (s1, cid) = fresh_atom(st, e@, var@);
            lemma_items(s1, cid, payload_scope(e@, var@) + "idx"@, "variant"@, items@, items@.len(), reg);
            lemma_step_trans(st, s1, emit(st, v, reg).0);
        },
        Shape::Mapping(entries) => {
            let (s1, cid) = fresh_atom(st, "map"@, crate::export::sized_label("map"@, entries@.len()));
            lemma_entries(s1, cid, entries@, entries@.len(), reg);
            lemma_step_trans(st, s1, emit(st, v, reg).0);
        },
        Shape::Struct(name, fields) => {
            let (s1, cid) = fresh_atom(st, name@, name@);
            lemma_visit_type(s1, name@, reg);
            let s2 = visit_type(s1, name@, reg);
            lemma_step_trans(st, s1, s2);
            lemma_fields(s2, cid, Seq::empty(), "struct"@, fields@, fields@.len(), reg);
            lemma_step_trans(st, s2, emit(st, v, reg).0);
        },
        Shape::StructVariant(e, var, fields) => {
            let (s1, cid) = fresh_atom(st, e@, var@);
            lemma_fields(s1, cid, payload_scope(e@, var@), "variant"@, fields@, fields@.len(), reg);
            lemma_step_trans(st, s1, emit(st, v, reg).0);
        },
        _ => {},
    }
}

proof fn lemma_items(
    st: ExportModel,
    cid: Seq<char>,
    rel: Seq<char>,
    tag: Seq<char>,
    items: Seq<Shape>,
    n: nat,
    reg: Map<Seq<char>, DecoratorsV>,
)
    ensures
        step_ok(st, emit_items(st, cid, rel, tag, items, n, reg)),
    decreases items, n,
{
    if n == 0 || n > items.len() {
        lemma_prefix_refl(st.atoms);
        lemma_prefix_refl(st.singletons);
    } else {
        let s1 = emit_items(st, cid, rel, tag, items, (n - 1) as nat, reg);
        lemma_items(st, cid, rel, tag, items, (n - 1) as nat, reg);
        lemma_emit(s1, items[n - 1], reg);
        let (s2, eid) = emit(s1, items[n - 1], reg);
        let a = seq![cid, decimal((n - 1) as nat), eid];
        let t = seq![tag, "index"@, "atom"@];
        lemma_add_tuple(s2, rel, a, t);
        lemma_step_trans(st, s1, s2);
        lemma_step_trans(st, s2, add_tuple(s2, rel, a, t));
    }
}

proof fn lemma_entries(
    st: ExportModel,
    cid: Seq<char>,
    entries: Seq<(Shape, Shape)>,
    n: nat,
    reg: Map<Seq<char>, DecoratorsV>,
)
    ensures
        step_ok(st, emit_entries(st, cid, entries, n, reg)),
    decreases entries, n,
{
    if n == 0 || n > entries.len() {
        lemma_prefix_refl(st.atoms);
        lemma_prefix_refl(st.singletons);
    } else {
        let s1 = emit_entries(st, cid, entries, (n - 1) as nat, reg);
        lemma_entries(st, cid, entries, (n - 1) as nat, reg);
        lemma_emit(s1, entries[n - 1].0, reg);
        let (s2, kid) = emit(s1, entries[n - 1].0, reg);
        lemma_emit(s2, entries[n - 1].1, reg);
        let (s3, vid) = emit(s2, entries[n - 1].1, reg);
        let a = seq![cid, kid, vid];
        let t = seq!["map"@, "atom"@, "atom"@];
        lemma_add_tuple(s3, "map_entry"@, a, t);
        lemma_step_trans(st, s1, s2);
        lemma_step_trans(st, s2, s3);
        lemma_step_trans(st, s3, add_tuple(s3, "map_entry"@, a, t));
    }
}

proof fn lemma_fields(
    st: ExportModel,
    cid: Seq<char>,
    prefix: Seq<char>,
    tag: Seq<char>,
    fields: Seq<(String, Shape)>,
    n: nat,
    reg: Map<Seq<char>, DecoratorsV>,
)
    ensures
        step_ok(st, emit_fields(st, cid, prefix, tag, fields, n, reg)),
    decreases fields, n,
{
    if n == 0 || n > fields.len() {
        lemma_prefix_refl(st.atoms);
        lemma_prefix_refl(st.singletons);
    } else {
        let s1 = emit_fields(st, cid, prefix, tag, fields, (n - 1) as nat, reg);
        lemma_fields(st, cid, prefix, tag, fields, (n - 1) as nat, reg);
        lemma_emit(s1, fields[n - 1].1, reg);
        let (s2, fid) = emit(s1, fields[n - 1].1, reg);
        let a = seq![cid, fid];
        let t = seq![tag, "atom"@];
        lemma_add_tuple(s2, prefix + fields[n - 1].0@, a, t);
        lemma_step_trans(st, s1, s2);
        lemma_step_trans(st, s2, add_tuple(s2, prefix + fields[n - 1].0@, a, t));
    }
}

/// Every relation of an export has one list of column types: each of its
/// tuples carries exactly those types and one atom id per column.
pub proof fn relation_columns_are_consistent(
    v: Shape,
    exclude: Option<Seq<char>>,
    reg: Map<Seq<char>, DecoratorsV>,
)
    ensures
        ({
            let rels = exported(v, exclude, reg).relations;
            forall|i: int, k: int|
                0 <= i < rels.len() && 0 <= k < rels[i].tuples.len() ==> (
                #[trigger] rels[i].tuples[k]).types == rels[i].types
                    && rels[i].tuples[k].atoms.len() == rels[i].types.len()
        }),
{
    lemma_emit(initial_model(exclude), v, reg);
}

/// An export holds at most one relation per name and column types: tuples of
/// the same relation, from any number of instances, accumulate in it.
pub proof fn relations_are_keyed_by_name(
    v: Shape,
    exclude: Option<Seq<char>>,
    reg: Map<Seq<char>, DecoratorsV>,
)
    ensures
        names_unique(exported(v, exclude, reg).relations),
{
    lemma_emit(initial_model(exclude), v, reg);
}

/// The (type, label) key of a singleton-class value.
pub open spec fn singleton_key(v: Shape) -> Option<(Seq<char>, Seq<char>)> {
    match v {
        Shape::Bool(b) => Some(("bool"@, crate::export::bool_text(b))),
        Shape::Absent => Some(("None"@, "None"@)),
        Shape::Unit => Some(("unit"@, "()"@)),
        Shape::UnitStruct(name) => Some(("unit_struct"@, name@)),
        Shape::UnitVariant(e, var) => Some((e@, var@)),
        _ => None,
    }
}

proof fn lemma_emit_singleton(st: ExportModel, v: Shape, reg: Map<Seq<char>, DecoratorsV>)
    requires
        singleton_key(v) is Some,
    ensures
        ({
            let key = singleton_key(v)->0;
            emit(st, v, reg) == singleton(st, key.0, key.1)
        }),
{
}

/// After `singleton(st, k, l)`, the key is cached with the returned id.
proof fn lemma_singleton_cached(st: ExportModel, k: Seq<char>, l: Seq<char>)
    ensures
        ({
            let (s1, id) = singleton(st, k, l);
            let i = find_singleton(s1.singletons, k, l);
            i >= 0 && s1.singletons[i].id == id
        }),
{
    lemma_find_singleton(st.singletons, k, l);
}

/// Two occurrences of a singleton-class value with the same (type, label),
/// with any value exported in between, resolve to the same atom, and the
/// second occurrence adds nothing to the export.
pub proof fn singletons_share_one_atom(
    st: ExportModel,
    v: Shape,
    w: Shape,
    u: Shape,
    reg: Map<Seq<char>, DecoratorsV>,
)
    requires
        sound(st),
        singleton_key(v) is Some,
        singleton_key(u) == singleton_key(v),
    ensures
        ({
            let (s1, id1) = emit(st, v, reg);
            let s2 = emit(s1, w, reg).0;
            let (s3, id3) = emit(s2, u, reg);
            id3 == id1 && s3 == s2
        }),
{
    let (k, l) = singleton_key(v)->0;
    lemma_emit_singleton(st, v, reg);
    let (s1, id1) = emit(st, v, reg);
    lemma_emit(st, v, reg);
    lemma_singleton_cached(st, k, l);
    let i = find_singleton(s1.singletons, k, l);
    lemma_find_singleton(s1.singletons, k, l);
    let s2 = emit(s1, w, reg).0;
    lemma_emit(s1, w, reg);
    assert(s2.singletons[i] == s2.singletons.take(s1.singletons.len() as int)[i]);
    lemma_find_singleton_unique(s2.singletons, i);
    lemma_emit_singleton(s2, u, reg);
}

/// Whether exporting the value creates an atom of its own (everything but
/// singleton-class values; a present optional value is the value itself).
pub open spec fn creates_atom(v: Shape) -> bool
    decreases v,
{
    match v {
        Shape::Present(inner) => creates_atom(*inner),
        _ => singleton_key(v) is None,
    }
}

proof fn lemma_creates_atom(st: ExportModel, v: Shape, reg: Map<Seq<char>, DecoratorsV>)
    requires
        creates_atom(v),
    ensures
        emit(st, v, reg).1 == atom_id(st.atoms.len()),
        emit(st, v, reg).0.atoms.len() > st.atoms.len(),
    decreases v,
{
    lemma_fresh_atom(st);
    match v {
        Shape::Present(inner) => lemma_creates_atom(st, *inner, reg),
        Shape::NewtypeStruct(name, inner) => {
            let (s1, sid) = fresh_atom(st, "newtype_struct"@, name@);
            lemma_emit(s1, *inner, reg);
            let (s2, iid) = emit(s1, *inner, reg);
            lemma_add_tuple(s2, "value"@, seq![sid, iid], seq!["newtype_struct"@, "atom"@]);
        },
        Shape::NewtypeVariant(e, var, inner) => {
            let (s1, vid) = fresh_atom(st, e@, var@);
            lemma_emit(s1, *inner, reg);
            let (s2, iid) = emit(s1, *inner, reg);
            lemma_add_tuple(s2, "variant_value"@, seq![vid, iid], seq!["variant"@, "atom"@]);
        },
        Shape::Sequence(items) => {
            let (s1, cid) = fresh_atom(st, "sequence"@, crate::export::sized_label("seq"@, items@.len()));
            lemma_items(s1, cid, "idx"@, "sequence"@, items@, items@.len(), reg);
        },
        Shape::Tuple(items) => {
            let (s1, cid) = fresh_atom(st, "tuple"@, crate::export::sized_label("tuple"@, items@.len()));
            lemma_items(s1, cid, "tuple_idx"@, "tuple"@, items@, items@.len(), reg);
        },
        Shape::TupleStruct(name, items) => {
            let (s1, cid) = fresh_atom(st, "tuple_struct"@, name@);
            lemma_items(s1, cid, name@ + ".idx"@, "tuple_struct"@, items@, items@.len(), reg);
        },
        Shape::TupleVariant(e, var, items) => {
            let (s1, cid) = fresh_atom(st, e@, var@);
            lemma_items(s1, cid, payload_scope(e@, var@) + "idx"@, "variant"@, items@, items@.len(), reg);
        },
        Shape::Mapping(entries) => {
            let (s1, cid) = fresh_atom(st, "map"@, crate::export::sized_label("map"@, entries@.len()));
            lemma_entries(s1, cid, entries@, entries@.len(), reg);
        },
        Shape::Struct(name, fields) => {
            let (s1, cid) = fresh_atom(st, name@, name@);
            lemma_visit_type(s1, name@, reg);
            let s2 = visit_type(s1, name@, reg);
            lemma_fields(s2, cid, Seq::empty(), "struct"@, fields@, fields@.len(), reg);
        },
        Shape::StructVariant(e, var, fields) => {
            let (s1, cid) = fresh_atom(st, e@, var@);
            lemma_fields(s1, cid, payload_scope(e@, var@), "variant"@, fields@, fields@.len(), reg);
        },
        _ => {},
    }
}

proof fn lemma_decimal_len(n: nat)
    ensures
        decimal(n).len() >= 1,
        n >= 10 ==> decimal(n).len() >= 2,
    decreases n,
{
    if n >= 10 {
        lemma_decimal_len(n / 10);
    }
}

proof fn lemma_decimal_injective(a: nat, b: nat)
    requires
        decimal(a) == decimal(b),
    ensures
        a == b,
    decreases a,
{
    lemma_decimal_len(a);
    lemma_decimal_len(b);
    if a < 10 && b < 10 {
        assert(decimal(a)[0] == digit_char(a));
        assert(decimal(b)[0] == digit_char(b));
    } else if a >= 10 && b >= 10 {
        let da = decimal(a / 10);
        let db = decimal(b / 10);
        assert(decimal(a).drop_last() =~= da);
        assert(decimal(b).drop_last() =~= db);
        assert(decimal(a).last() == digit_char(a % 10));
        assert(decimal(b).last() == digit_char(b % 10));
        lemma_decimal_injective(a / 10, b / 10);
    }
}

proof fn lemma_atom_id_injective(i: nat, j: nat)
    requires
        atom_id(i) == atom_id(j),
    ensures
        i == j,
{
    let p = "atom"@;
    assert((p + decimal(i)).skip(p.len() as int) =~= decimal(i));
    assert((p + decimal(j)).skip(p.len() as int) =~= decimal(j));
    lemma_decimal_injective(i, j);
}

/// Each occurrence of a value that is not a singleton gets an atom of its
/// own: two occurrences, with any value exported in between, have distinct
/// atom ids, even when the two values are equal.
pub proof fn occurrences_get_distinct_atoms(
    st: ExportModel,
    v: Shape,
    w: Shape,
    u: Shape,
    reg: Map<Seq<char>, DecoratorsV>,
)
    requires
        creates_atom(v),
        creates_atom(u),
    ensures
        ({
            let (s1, id1) = emit(st, v, reg);
            let s2 = emit(s1, w, reg).0;
            let (s3, id3) = emit(s2, u, reg);
            &&& id1 == atom_id(st.atoms.len())
            &&& id3 == atom_id(s2.atoms.len())
            &&& id1 != id3
        }),
{
    lemma_creates_atom(st, v, reg);
    let (s1, id1) = emit(st, v, reg);
    lemma_emit(s1, w, reg);
    let s2 = emit(s1, w, reg).0;
    lemma_creates_atom(s2, u, reg);
    if atom_id(st.atoms.len()) == atom_id(s2.atoms.len()) {
        lemma_atom_id_injective(st.atoms.len(), s2.atoms.len());
    }
}

/// Whether exporting the value adds no relation tuple (scalars, singletons,
/// and present optional values of those).
pub open spec fn is_flat(v: Shape) -> bool
    decreases v,
{
    match v {
        Shape::Present(inner) => is_flat(*inner),
        Shape::NewtypeStruct(..) | Shape::NewtypeVariant(..) | Shape::Sequence(_) | Shape::Tuple(_)
        | Shape::TupleStruct(..) | Shape::TupleVariant(..) | Shape::Mapping(_) | Shape::Struct(..)
        | Shape::StructVariant(..) => false,
        _ => true,
    }
}

proof fn lemma_flat(st: ExportModel, v: Shape, reg: Map<Seq<char>, DecoratorsV>)
    requires
        is_flat(v),
    ensures
        emit(st, v, reg).0.relations == st.relations,
    decreases v,
{
    lemma_fresh_atom(st);
    lemma_singleton(st);
    if let Shape::Present(inner) = v {
        lemma_flat(st, *inner, reg);
    }
}

/// The `idx` relation after the first `n` flat elements of a sequence
/// exported into a state without relations: one tuple per element, in order,
/// whose position column is the element's index.
proof fn lemma_flat_items(
    st: ExportModel,
    cid: Seq<char>,
    rel: Seq<char>,
    tag: Seq<char>,
    items: Seq<Shape>,
    n: nat,
    reg: Map<Seq<char>, DecoratorsV>,
)
    requires
        st.relations.len() == 0,
        n <= items.len(),
        forall|i: int| 0 <= i < items.len() ==> is_flat(#[trigger] items[i]),
    ensures
        ({
            let rels = emit_items(st, cid, rel, tag, items, n, reg).relations;
            &&& n == 0 ==> rels.len() == 0
            &&& n > 0 ==> {
                &&& rels.len() == 1
                &&& rels[0].name == rel
                &&& rels[0].types == seq![tag, "index"@, "atom"@]
                &&& rels[0].tuples.len() == n
                &&& forall|i: int|
                    0 <= i < n ==> (#[trigger] rels[0].tuples[i]).atoms.len() == 3
                        && rels[0].tuples[i].atoms[0] == cid && rels[0].tuples[i].atoms[1]
                        == decimal(i as nat)
            }
        }),
    decreases n,
{
    if n > 0 {
        lemma_flat_items(st, cid, rel, tag, items, (n - 1) as nat, reg);
        let s1 = emit_items(st, cid, rel, tag, items, (n - 1) as nat, reg);
        lemma_flat(s1, items[n - 1], reg);
        let (s2, eid) = emit(s1, items[n - 1], reg);
        lemma_find_relation(s2.relations, rel, seq![tag, "index"@, "atom"@]);
        let s3 = emit_items(st, cid, rel, tag, items, n, reg);
        if n > 1 {
            let r = s3.relations[0];
            assert forall|i: int| 0 <= i < n implies (#[trigger] r.tuples[i]).atoms.len() == 3
                && r.tuples[i].atoms[0] == cid && r.tuples[i].atoms[1] == decimal(i as nat) by {
                if i < n - 1 {
                    assert(r.tuples[i] == s1.relations[0].tuples[i]);
                }
            }
        }
    }
}

/// Exporting a sequence of flat elements yields a single `idx` relation with
/// one tuple per element, in order: tuple `i` links the sequence's atom (the
/// first atom) to position `i`.
pub proof fn positions_follow_order(v: Shape, exclude: Option<Seq<char>>, reg: Map<Seq<char>, DecoratorsV>)
    requires
        v is Sequence,
        forall|i: int| 0 <= i < v->Sequence_0@.len() ==> is_flat(#[trigger] v->Sequence_0@[i]),
    ensures
        ({
            let items = v->Sequence_0@;
            let rels = exported(v, exclude, reg).relations;
            items.len() > 0 ==> {
                &&& rels.len() == 1
                &&& rels[0].name == "idx"@
                &&& rels[0].types == seq!["sequence"@, "index"@, "atom"@]
                &&& rels[0].tuples.len() == items.len()
                &&& forall|i: int|
                    0 <= i < items.len() ==> (#[trigger] rels[0].tuples[i]).atoms.len() == 3
                        && rels[0].tuples[i].atoms[0] == atom_id(0) && rels[0].tuples[i].atoms[1]
                        == decimal(i as nat)
            }
        }),
{
    let items = v->Sequence_0@;
    let st = initial_model(exclude);
    let (s1, cid) = fresh_atom(st, "sequence"@, crate::export::sized_label("seq"@, items.len()));
    lemma_flat_items(s1, cid, "idx"@, "sequence"@, items, items.len(), reg);
}

/// The column types of the relations of struct fields.
pub open spec fn field_columns() -> Seq<Seq<char>> {
    seq!["struct"@, "atom"@]
}

/// The number of tuples in the relation of this name and these column types
/// (zero when absent).
pub open spec fn tuple_count(rels: Seq<RelationV>, name: Seq<char>, types: Seq<Seq<char>>) -> nat {
    let i = find_relation(rels, name, types);
    if i >= 0 {
        rels[i].tuples.len()
    } else {
        0
    }
}

/// How many fields named `name` the structs in the value hold (fields of enum
/// cases are counted apart, under their scoped names).
pub open spec fn field_count(v: Shape, name: Seq<char>) -> nat
    decreases v, 0nat,
{
    match v {
        Shape::Present(inner) => field_count(*inner, name),
        Shape::NewtypeStruct(_, inner) => field_count(*inner, name),
        Shape::NewtypeVariant(_, _, inner) => field_count(*inner, name),
        Shape::Sequence(items) => items_field_count(items@, items@.len(), name),
        Shape::Tuple(items) => items_field_count(items@, items@.len(), name),
        Shape::TupleStruct(_, items) => items_field_count(items@, items@.len(), name),
        Shape::TupleVariant(_, _, items) => items_field_count(items@, items@.len(), name),
        Shape::Mapping(entries) => entries_field_count(entries@, entries@.len(), name),
        Shape::Struct(_, fields) => fields_field_count(fields@, fields@.len(), name, true),
        Shape::StructVariant(_, _, fields) => fields_field_count(fields@, fields@.len(), name, false),
        _ => 0,
    }
}

pub open spec fn items_field_count(items: Seq<Shape>, n: nat, name: Seq<char>) -> nat
    decreases items, n,
{
    if n == 0 || n > items.len() {
        0
    } else {
        items_field_count(items, (n - 1) as nat, name) + field_count(items[n - 1], name)
    }
}

pub open spec fn entries_field_count(entries: Seq<(Shape, Shape)>, n: nat, name: Seq<char>) -> nat
    decreases entries, n,
{
    if n == 0 || n > entries.len() {
        0
    } else {
        entries_field_count(entries, (n - 1) as nat, name) + field_count(entries[n - 1].0, name)
            + field_count(entries[n - 1].1, name)
    }
}

/// Fields named `name` among the first `n` fields (counted when `own`, that is
/// for a struct's own fields) and inside their values.
pub open spec fn fields_field_count(fields: Seq<(String, Shape)>, n: nat, name: Seq<char>, own: bool) -> nat
    decreases fields, n,
{
    if n == 0 || n > fields.len() {
        0
    } else {
        fields_field_count(fields, (n - 1) as nat, name, own) + (if own && fields[n - 1].0@ == name {
            1nat
        } else {
            0nat
        }) + field_count(fields[n - 1].1, name)
    }
}

proof fn lemma_find_relation_update(
    rels: Seq<RelationV>,
    i: int,
    r: RelationV,
    name: Seq<char>,
    types: Seq<Seq<char>>,
)
    requires
        0 <= i < rels.len(),
        r.name == rels[i].name,
        r.types == rels[i].types,
    ensures
        find_relation(rels.update(i, r), name, types) == find_relation(rels, name, types),
    decreases rels.len(),
{
    let u = rels.update(i, r);
    if i == rels.len() - 1 {
        assert(u.drop_last() =~= rels.drop_last());
    } else {
        assert(u.drop_last() =~= rels.drop_last().update(i, r));
        lemma_find_relation_update(rels.drop_last(), i, r, name, types);
    }
}

proof fn lemma_add_tuple_count(
    st: ExportModel,
    m: Seq<char>,
    atoms: Seq<Seq<char>>,
    types: Seq<Seq<char>>,
    name: Seq<char>,
    cols: Seq<Seq<char>>,
)
    ensures
        tuple_count(add_tuple(st, m, atoms, types).relations, name, cols) == tuple_count(
            st.relations,
            name,
            cols,
        ) + if m == name && types == cols {
            1nat
        } else {
            0nat
        },
{
    lemma_find_relation(st.relations, m, types);
    let i = find_relation(st.relations, m, types);
    let rels2 = add_tuple(st, m, atoms, types).relations;
    let same = m == name && types == cols;
    if i >= 0 {
        let r = st.relations[i];
        lemma_find_relation_update(
            st.relations,
            i,
            RelationV { tuples: r.tuples.push(TupleV { atoms, types }), ..r },
            name,
            cols,
        );
        lemma_find_relation(st.relations, name, cols);
        let j = find_relation(st.relations, name, cols);
        if !same && j >= 0 {
            assert(j != i);
            assert(rels2[j] == st.relations[j]);
        }
    } else {
        assert(rels2.drop_last() =~= st.relations);
        if same {
            assert(find_relation(rels2, name, cols) == st.relations.len());
        } else {
            assert(find_relation(rels2, name, cols) == find_relation(st.relations, name, cols));
            lemma_find_relation(st.relations, name, cols);
            let j = find_relation(st.relations, name, cols);
            if j >= 0 {
                assert(rels2[j] == st.relations[j]);
            }
        }
    }
}

proof fn lemma_tags_differ()
    ensures
        seq!["newtype_struct"@, "atom"@] != field_columns(),
        seq!["variant"@, "atom"@] != field_columns(),
{
    reveal_strlit("newtype_struct");
    reveal_strlit("variant");
    reveal_strlit("struct");
    assert(seq!["newtype_struct"@, "atom"@][0].len() != field_columns()[0].len());
    assert(seq!["variant"@, "atom"@][0].len() != field_columns()[0].len());
}

proof fn lemma_count_emit(st: ExportModel, v: Shape, reg: Map<Seq<char>, DecoratorsV>, name: Seq<char>)
    ensures
        tuple_count(emit(st, v, reg).0.relations, name, field_columns()) == tuple_count(
            st.relations,
            name,
            field_columns(),
        ) + field_count(v, name),
    decreases v, 0nat,
{
    lemma_fresh_atom(st);
    lemma_singleton(st);
    lemma_tags_differ();
    match v {
        Shape::Present(inner) => lemma_count_emit(st, *inner, reg, name),
        Shape::NewtypeStruct(n, inner) => {
            let (s1, sid) = fresh_atom(st, "newtype_struct"@, n@);
            lemma_count_emit(s1, *inner, reg, name);
            let (s2, iid) = emit(s1, *inner, reg);
            lemma_add_tuple_count(
                s2,
                "value"@,
                seq![sid, iid],
                seq!["newtype_struct"@, "atom"@],
                name,
                field_columns(),
            );
        },
        Shape::NewtypeVariant(e, var, inner) => {
            let (s1, vid) = fresh_atom(st, e@, var@);
            lemma_count_emit(s1, *inner, reg, name);
            let (s2, iid) = emit(s1, *inner, reg);
            lemma_add_tuple_count(
                s2,
                "variant_value"@,
                seq![vid, iid],
                seq!["variant"@, "atom"@],
                name,
                field_columns(),
            );
        },
        Shape::Sequence(items) => {
            let (s1, cid) = fresh_atom(st, "sequence"@, crate::export::sized_label("seq"@, items@.len()));
            lemma_count_items(s1, cid, "idx"@, "sequence"@, items@, items@.len(), reg, name);
        },
        Shape::Tuple(items) => {
            let (s1, cid) = fresh_atom(st, "tuple"@, crate::export::sized_label("tuple"@, items@.len()));
            lemma_count_items(s1, cid, "tuple_idx"@, "tuple"@, items@, items@.len(), reg, name);
        },
        Shape::TupleStruct(n, items) => {
            let (s1, cid) = fresh_atom(st, "tuple_struct"@, n@);
            lemma_count_items(s1, cid, n@ + ".idx"@, "tuple_struct"@, items@, items@.len(), reg, name);
        },
        Shape::TupleVariant(e, var, items) => {
            let (s1, cid) = fresh_atom(st, e@, var@);
            lemma_count_items(
                s1,
                cid,
                payload_scope(e@, var@) + "idx"@,
                "variant"@,
                items@,
                items@.len(),
                reg,
                name,
            );
        },
        Shape::Mapping(entries) => {
            let (s1, cid) = fresh_atom(st, "map"@, crate::export::sized_label("map"@, entries@.len()));
            lemma_count_entries(s1, cid, entries@, entries@.len(), reg, name);
        },
        Shape::Struct(n, fields) => {
            let (s1, cid) = fresh_atom(st, n@, n@);
            lemma_visit_type(s1, n@, reg);
            let s2 = visit_type(s1, n@, reg);
            lemma_count_fields(s2, cid, Seq::empty(), "struct"@, fields@, fields@.len(), reg, name, true);
        },
        Shape::StructVariant(e, var, fields) => {
            let (s1, cid) = fresh_atom(st, e@, var@);
            lemma_count_fields(
                s1,
                cid,
                payload_scope(e@, var@),
                "variant"@,
                fields@,
                fields@.len(),
                reg,
                name,
                false,
            );
        },
        _ => {},
    }
}

proof fn lemma_count_items(
    st: ExportModel,
    cid: Seq<char>,
    rel: Seq<char>,
    tag: Seq<char>,
    items: Seq<Shape>,
    n: nat,
    reg: Map<Seq<char>, DecoratorsV>,
    name: Seq<char>,
)
    ensures
        tuple_count(emit_items(st, cid, rel, tag, items, n, reg).relations, name, field_columns())
            == tuple_count(st.relations, name, field_columns()) + items_field_count(items, n, name),
    decreases items, n,
{
    if n > 0 && n <= items.len() {
        lemma_count_items(st, cid, rel, tag, items, (n - 1) as nat, reg, name);
        let s1 = emit_items(st, cid, rel, tag, items, (n - 1) as nat, reg);
        lemma_count_emit(s1, items[n - 1], reg, name);
        let (s2, eid) = emit(s1, items[n - 1], reg);
        lemma_add_tuple_count(
            s2,
            rel,
            seq![cid, decimal((n - 1) as nat), eid],
            seq![tag, "index"@, "atom"@],
            name,
            field_columns(),
        );
        assert(seq![tag, "index"@, "atom"@].len() != field_columns().len());
    }
}

proof fn lemma_count_entries(
    st: ExportModel,
    cid: Seq<char>,
    entries: Seq<(Shape, Shape)>,
    n: nat,
    reg: Map<Seq<char>, DecoratorsV>,
    name: Seq<char>,
)
    ensures
        tuple_count(emit_entries(st, cid, entries, n, reg).relations, name, field_columns())
            == tuple_count(st.relations, name, field_columns()) + entries_field_count(entries, n, name),
    decreases entries, n,
{
    if n > 0 && n <= entries.len() {
        lemma_count_entries(st, cid, entries, (n - 1) as nat, reg, name);
        let s1 = emit_entries(st, cid, entries, (n - 1) as nat, reg);
        lemma_count_emit(s1, entries[n - 1].0, reg, name);
        let (s2, kid) = emit(s1, entries[n - 1].0, reg);
        lemma_count_emit(s2, entries[n - 1].1, reg, name);
        let (s3, vid) = emit(s2, entries[n - 1].1, reg);
        lemma_add_tuple_count(
            s3,
            "map_entry"@,
            seq![cid, kid, vid],
            seq!["map"@, "atom"@, "atom"@],
            name,
            field_columns(),
        );
        assert(seq!["map"@, "atom"@, "atom"@].len() != field_columns().len());
    }
}

proof fn lemma_count_fields(
    st: ExportModel,
    cid: Seq<char>,
    prefix: Seq<char>,
    tag: Seq<char>,
    fields: Seq<(String, Shape)>,
    n: nat,
    reg: Map<Seq<char>, DecoratorsV>,
    name: Seq<char>,
    own: bool,
)
    requires
        own ==> prefix == Seq::<char>::empty() && tag == "struct"@,
        !own ==> seq![tag, "atom"@] != field_columns(),
    ensures
        tuple_count(emit_fields(st, cid, prefix, tag, fields, n, reg).relations, name, field_columns())
            == tuple_count(st.relations, name, field_columns()) + fields_field_count(
            fields,
            n,
            name,
            own,
        ),
    decreases fields, n,
{
    if n > 0 && n <= fields.len() {
        lemma_count_fields(st, cid, prefix, tag, fields, (n - 1) as nat, reg, name, own);
        let s1 = emit_fields(st, cid, prefix, tag, fields, (n - 1) as nat, reg);
        lemma_count_emit(s1, fields[n - 1].1, reg, name);
        let (s2, fid) = emit(s1, fields[n - 1].1, reg);
        lemma_add_tuple_count(
            s2,
            prefix + fields[n - 1].0@,
            seq![cid, fid],
            seq![tag, "atom"@],
            name,
            field_columns(),
        );
        if own {
            assert(prefix + fields[n - 1].0@ =~= fields[n - 1].0@);
        }
    }
}

/// Each struct field name gets exactly one tuple per occurrence of that field
/// in the exported value, all in the one relation of that name with the
/// struct-field column types `[struct, atom]`.
pub proof fn field_relations_count_occurrences(
    v: Shape,
    exclude: Option<Seq<char>>,
    reg: Map<Seq<char>, DecoratorsV>,
    name: Seq<char>,
)
    ensures
        tuple_count(exported(v, exclude, reg).relations, name, field_columns()) == field_count(
            v,
            name,
        ),
{
    lemma_count_emit(initial_model(exclude), v, reg, name);
}

/// Atom `i` has the id `atom<i>`.
pub open spec fn numbered(atoms: Seq<AtomV>) -> bool {
    forall|i: int| 0 <= i < atoms.len() ==> (#[trigger] atoms[i]).id == atom_id(i as nat)
}

/// The cached singleton `i` is an atom of the export carrying its key.
pub open spec fn backed_at(st: ExportModel, i: int) -> bool {
    exists|j: int|
        0 <= j < st.atoms.len() && #[trigger] st.atoms[j] == (AtomV {
            id: st.singletons[i].id,
            atom_type: st.singletons[i].kind,
            label: st.singletons[i].label,
        })
}

/// Each cached singleton is an atom of the export carrying its key.
pub open spec fn cache_backed(st: ExportModel) -> bool {
    forall|i: int| 0 <= i < st.singletons.len() ==> #[trigger] backed_at(st, i)
}

/// The atom invariants: numbering, and singletons backed by atoms.
pub open spec fn atoms_ok(st: ExportModel) -> bool {
    numbered(st.atoms) && cache_backed(st)
}

proof fn lemma_backed_grow(st: ExportModel, s2: ExportModel, i: int)
    requires
        backed_at(st, i),
        is_prefix(st.atoms, s2.atoms),
        0 <= i < st.singletons.len(),
        i < s2.singletons.len(),
        s2.singletons[i] == st.singletons[i],
    ensures
        backed_at(s2, i),
{
    let j = choose|j: int|
        0 <= j < st.atoms.len() && #[trigger] st.atoms[j] == (AtomV {
            id: st.singletons[i].id,
            atom_type: st.singletons[i].kind,
            label: st.singletons[i].label,
        });
    assert(s2.atoms[j] == s2.atoms.take(st.atoms.len() as int)[j]);
}

proof fn lemma_atoms_ok_grow(st: ExportModel, s2: ExportModel)
    requires
        atoms_ok(st),
        is_prefix(st.atoms, s2.atoms),
        numbered(s2.atoms),
        s2.singletons == st.singletons,
    ensures
        atoms_ok(s2),
{
    assert forall|i: int| 0 <= i < s2.singletons.len() implies #[trigger] backed_at(s2, i) by {
        assert(backed_at(st, i));
        lemma_backed_grow(st, s2, i);
    }
}

proof fn lemma_atoms_fresh(st: ExportModel, k: Seq<char>, l: Seq<char>)
    requires
        atoms_ok(st),
    ensures
        atoms_ok(fresh_atom(st, k, l).0),
{
    let s2 = fresh_atom(st, k, l).0;
    lemma_prefix_push(st.atoms, s2.atoms.last());
    assert forall|i: int| 0 <= i < s2.atoms.len() implies (#[trigger] s2.atoms[i]).id == atom_id(
        i as nat,
    ) by {
        if i < st.atoms.len() {
            assert(s2.atoms[i] == st.atoms[i]);
        }
    }
    lemma_atoms_ok_grow(st, s2);
}

proof fn lemma_atoms_singleton(st: ExportModel, k: Seq<char>, l: Seq<char>)
    requires
        atoms_ok(st),
    ensures
        atoms_ok(singleton(st, k, l).0),
{
    if find_singleton(st.singletons, k, l) < 0 {
        let (s1, id) = fresh_atom(st, k, l);
        lemma_atoms_fresh(st, k, l);
        let s2 = singleton(st, k, l).0;
        let n = st.atoms.len() as int;
        lemma_prefix_refl(s1.atoms);
        assert forall|i: int| 0 <= i < s2.singletons.len() implies #[trigger] backed_at(s2, i) by {
            if i == st.singletons.len() {
                assert(s2.atoms[n] == (AtomV { id, atom_type: k, label: l }));
            } else {
                assert(backed_at(s1, i));
                lemma_backed_grow(s1, s2, i);
            }
        }
    }
}

proof fn lemma_atoms_same(st: ExportModel, s2: ExportModel)
    requires
        atoms_ok(st),
        s2.atoms == st.atoms,
        s2.singletons == st.singletons,
    ensures
        atoms_ok(s2),
{
    lemma_prefix_refl(st.atoms);
    lemma_atoms_ok_grow(st, s2);
}

proof fn lemma_atoms_emit(st: ExportModel, v: Shape, reg: Map<Seq<char>, DecoratorsV>)
    requires
        atoms_ok(st),
    ensures
        atoms_ok(emit(st, v, reg).0),
    decreases v, 0nat,
{
    match v {
        Shape::Bool(b) => lemma_atoms_singleton(st, "bool"@, crate::export::bool_text(b)),
        Shape::Absent => lemma_atoms_singleton(st, "None"@, "None"@),
        Shape::Unit => lemma_atoms_singleton(st, "unit"@, "()"@),
        Shape::UnitStruct(name) => lemma_atoms_singleton(st, "unit_struct"@, name@),
        Shape::UnitVariant(e, var) => lemma_atoms_singleton(st, e@, var@),
        Shape::Present(inner) => lemma_atoms_emit(st, *inner, reg),
        Shape::NewtypeStruct(name, inner) => {
            lemma_atoms_fresh(st, "newtype_struct"@, name@);
            let (s1, sid) = fresh_atom(st, "newtype_struct"@, name@);
            lemma_atoms_emit(s1, *inner, reg);
            let (s2, iid) = emit(s1, *inner, reg);
            lemma_atoms_same(s2, add_tuple(s2, "value"@, seq![sid, iid], seq!["newtype_struct"@, "atom"@]));
        },
        Shape::NewtypeVariant(e, var, inner) => {
            lemma_atoms_fresh(st, e@, var@);
            let (s1, vid) = fresh_atom(st, e@, var@);
            lemma_atoms_emit(s1, *inner, reg);
            let (s2, iid) = emit(s1, *inner, reg);
            lemma_atoms_same(s2, add_tuple(s2, "variant_value"@, seq![vid, iid], seq!["variant"@, "atom"@]));
        },
        Shape::Sequence(items) => {
            let label = crate::export::sized_label("seq"@, items@.len());
            lemma_atoms_fresh(st, "sequence"@, label);
            let (s1, cid) = fresh_atom(st, "sequence"@, label);
            lemma_atoms_items(s1, cid, "idx"@, "sequence"@, items@, items@.len(), reg);
        },
        Shape::Tuple(items) => {
            let label = crate::export::sized_label("tuple"@, items@.len());
            lemma_atoms_fresh(st, "tuple"@, label);
            let (s1, cid) = fresh_atom(st, "tuple"@, label);
            lemma_atoms_items(s1, cid, "tuple_idx"@, "tuple"@, items@, items@.len(), reg);
        },
        Shape::TupleStruct(name, items) => {
            lemma_atoms_fresh(st, "tuple_struct"@, name@);
            let (s1, cid) = fresh_atom(st, "tuple_struct"@, name@);
            lemma_atoms_items(s1, cid, name@ + ".idx"@, "tuple_struct"@, items@, items@.len(), reg);
        },
        Shape::TupleVariant(e, var, items) => {
            lemma_atoms_fresh(st, e@, var@);
            let (s1, cid) = fresh_atom(st, e@, var@);
            lemma_atoms_items(s1, cid, payload_scope(e@, var@) + "idx"@, "variant"@, items@, items@.len(), reg);
        },
        Shape::Mapping(entries) => {
            let label = crate::export::sized_label("map"@, entries@.len());
            lemma_atoms_fresh(st, "map"@, label);
            let (s1, cid) = fresh_atom(st, "map"@, label);
            lemma_atoms_entries(s1, cid, entries@, entries@.len(), reg);
        },
        Shape::Struct(name, fields) => {
            lemma_atoms_fresh(st, name@, name@);
            let (s1, cid) = fresh_atom(st, name@, name@);
            let s2 = visit_type(s1, name@, reg);
            lemma_atoms_same(s1, s2);
            lemma_atoms_fields(s2, cid, Seq::empty(), "struct"@, fields@, fields@.len(), reg);
        },
        Shape::StructVariant(e, var, fields) => {
            lemma_atoms_fresh(st, e@, var@);
            let (s1, cid) = fresh_atom(st, e@, var@);
            lemma_atoms_fields(s1, cid, payload_scope(e@, var@), "variant"@, fields@, fields@.len(), reg);
        },
        Shape::I8(x) => lemma_atoms_fresh(st, "i8"@, crate::text::signed_decimal(x as int)),
        Shape::I16(x) => lemma_atoms_fresh(st, "i16"@, crate::text::signed_decimal(x as int)),
        Shape::I32(x) => lemma_atoms_fresh(st, "i32"@, crate::text::signed_decimal(x as int)),
        Shape::I64(x) => lemma_atoms_fresh(st, "i64"@, crate::text::signed_decimal(x as int)),
        Shape::U8(x) => lemma_atoms_fresh(st, "u8"@, decimal(x as nat)),
        Shape::U16(x) => lemma_atoms_fresh(st, "u16"@, decimal(x as nat)),
        Shape::U32(x) => lemma_atoms_fresh(st, "u32"@, decimal(x as nat)),
        Shape::U64(x) => lemma_atoms_fresh(st, "u64"@, decimal(x as nat)),
        Shape::F32(t) => lemma_atoms_fresh(st, "f32"@, t@),
        Shape::F64(t) => lemma_atoms_fresh(st, "f64"@, t@),
        Shape::Char(c) => lemma_atoms_fresh(st, "char"@, seq![c]),
        Shape::Str(t) => lemma_atoms_fresh(st, "string"@, t@),
        Shape::Bytes(b) => lemma_atoms_fresh(st, "bytes"@, crate::export::bytes_text(b@)),
    }
}

proof fn lemma_atoms_items(
    st: ExportModel,
    cid: Seq<char>,
    rel: Seq<char>,
    tag: Seq<char>,
    items: Seq<Shape>,
    n: nat,
    reg: Map<Seq<char>, DecoratorsV>,
)
    requires
        atoms_ok(st),
    ensures
        atoms_ok(emit_items(st, cid, rel, tag, items, n, reg)),
    decreases items, n,
{
    if n > 0 && n <= items.len() {
        lemma_atoms_items(st, cid, rel, tag, items, (n - 1) as nat, reg);
        let s1 = emit_items(st, cid, rel, tag, items, (n - 1) as nat, reg);
        lemma_atoms_emit(s1, items[n - 1], reg);
        let (s2, eid) = emit(s1, items[n - 1], reg);
        lemma_atoms_same(
            s2,
            add_tuple(s2, rel, seq![cid, decimal((n - 1) as nat), eid], seq![tag, "index"@, "atom"@]),
        );
    }
}

proof fn lemma_atoms_entries(
    st: ExportModel,
    cid: Seq<char>,
    entries: Seq<(Shape, Shape)>,
    n: nat,
    reg: Map<Seq<char>, DecoratorsV>,
)
    requires
        atoms_ok(st),
    ensures
        atoms_ok(emit_entries(st, cid, entries, n, reg)),
    decreases entries, n,
{
    if n > 0 && n <= entries.len() {
        lemma_atoms_entries(st, cid, entries, (n - 1) as nat, reg);
        let s1 = emit_entries(st, cid, entries, (n - 1) as nat, reg);
        lemma_atoms_emit(s1, entries[n - 1].0, reg);
        let (s2, kid) = emit(s1, entries[n - 1].0, reg);
        lemma_atoms_emit(s2, entries[n - 1].1, reg);
        let (s3, vid) = emit(s2, entries[n - 1].1, reg);
        lemma_atoms_same(s3, add_tuple(s3, "map_entry"@, seq![cid, kid, vid], seq!["map"@, "atom"@, "atom"@]));
    }
}

proof fn lemma_atoms_fields(
    st: ExportModel,
    cid: Seq<char>,
    prefix: Seq<char>,
    tag: Seq<char>,
    fields: Seq<(String, Shape)>,
    n: nat,
    reg: Map<Seq<char>, DecoratorsV>,
)
    requires
        atoms_ok(st),
    ensures
        atoms_ok(emit_fields(st, cid, prefix, tag, fields, n, reg)),
    decreases fields, n,
{
    if n > 0 && n <= fields.len() {
        lemma_atoms_fields(st, cid, prefix, tag, fields, (n - 1) as nat, reg);
        let s1 = emit_fields(st, cid, prefix, tag, fields, (n - 1) as nat, reg);
        lemma_atoms_emit(s1, fields[n - 1].1, reg);
        let (s2, fid) = emit(s1, fields[n - 1].1, reg);
        lemma_atoms_same(s2, add_tuple(s2, prefix + fields[n - 1].0@, seq![cid, fid], seq![tag, "atom"@]));
    }
}

/// In every export, the atom ids are pairwise distinct, and the singleton
/// cache holds each (type, label) key at most once, each entry being an atom
/// of the export that carries that key: one atom per singleton key.
pub proof fn atoms_are_distinct_and_singletons_unique(
    v: Shape,
    exclude: Option<Seq<char>>,
    reg: Map<Seq<char>, DecoratorsV>,
)
    ensures
        ({
            let st = exported(v, exclude, reg);
            &&& forall|i: int, j: int|
                0 <= i < j < st.atoms.len() ==> (#[trigger] st.atoms[i]).id != (#[trigger] st.atoms[j]).id
            &&& keys_unique(st.singletons)
            &&& forall|i: int| 0 <= i < st.singletons.len() ==> #[trigger] backed_at(st, i)
        }),
{
    let st0 = initial_model(exclude);
    lemma_emit(st0, v, reg);
    lemma_atoms_emit(st0, v, reg);
    let st = exported(v, exclude, reg);
    assert forall|i: int, j: int| 0 <= i < j < st.atoms.len() implies (#[trigger] st.atoms[i]).id
        != (#[trigger] st.atoms[j]).id by {
        if st.atoms[i].id == st.atoms[j].id {
            lemma_atom_id_injective(i as nat, j as nat);
        }
    }
}

/// How many atoms of their own the occurrences in the value get: every
/// occurrence that is not of the singleton class (a present optional value
/// counts as the value itself).
pub open spec fn node_count(v: Shape) -> nat
    decreases v, 0nat,
{
    match v {
        Shape::Present(inner) => node_count(*inner),
        Shape::Bool(_) | Shape::Absent | Shape::Unit | Shape::UnitStruct(_) | Shape::UnitVariant(..) => 0,
        Shape::NewtypeStruct(_, inner) => 1 + node_count(*inner),
        Shape::NewtypeVariant(_, _, inner) => 1 + node_count(*inner),
        Shape::Sequence(items) => 1 + items_node_count(items@, items@.len()),
        Shape::Tuple(items) => 1 + items_node_count(items@, items@.len()),
        Shape::TupleStruct(_, items) => 1 + items_node_count(items@, items@.len()),
        Shape::TupleVariant(_, _, items) => 1 + items_node_count(items@, items@.len()),
        Shape::Mapping(entries) => 1 + entries_node_count(entries@, entries@.len()),
        Shape::Struct(_, fields) => 1 + fields_node_count(fields@, fields@.len()),
        Shape::StructVariant(_, _, fields) => 1 + fields_node_count(fields@, fields@.len()),
        _ => 1,
    }
}

pub open spec fn items_node_count(items: Seq<Shape>, n: nat) -> nat
    decreases items, n,
{
    if n == 0 || n > items.len() {
        0
    } else {
        items_node_count(items, (n - 1) as nat) + node_count(items[n - 1])
    }
}

pub open spec fn entries_node_count(entries: Seq<(Shape, Shape)>, n: nat) -> nat
    decreases entries, n,
{
    if n == 0 || n > entries.len() {
        0
    } else {
        entries_node_count(entries, (n - 1) as nat) + node_count(entries[n - 1].0) + node_count(
            entries[n - 1].1,
        )
    }
}

pub open spec fn fields_node_count(fields: Seq<(String, Shape)>, n: nat) -> nat
    decreases fields, n,
{
    if n == 0 || n > fields.len() {
        0
    } else {
        fields_node_count(fields, (n - 1) as nat) + node_count(fields[n - 1].1)
    }
}

/// Atoms minus cached singletons: the atoms that are not singletons.
pub open spec fn own_atoms(st: ExportModel) -> int {
    st.atoms.len() - st.singletons.len()
}

proof fn lemma_own_singleton(st: ExportModel, k: Seq<char>, l: Seq<char>)
    ensures
        own_atoms(singleton(st, k, l).0) == own_atoms(st),
{
}

proof fn lemma_own_emit(st: ExportModel, v: Shape, reg: Map<Seq<char>, DecoratorsV>)
    ensures
        own_atoms(emit(st, v, reg).0) == own_atoms(st) + node_count(v),
    decreases v, 0nat,
{
    match v {
        Shape::Bool(b) => lemma_own_singleton(st, "bool"@, crate::export::bool_text(b)),
        Shape::Absent => lemma_own_singleton(st, "None"@, "None"@),
        Shape::Unit => lemma_own_singleton(st, "unit"@, "()"@),
        Shape::UnitStruct(name) => lemma_own_singleton(st, "unit_struct"@, name@),
        Shape::UnitVariant(e, var) => lemma_own_singleton(st, e@, var@),
        Shape::Present(inner) => lemma_own_emit(st, *inner, reg),
        Shape::NewtypeStruct(name, inner) => {
            let (s1, sid) = fresh_atom(st, "newtype_struct"@, name@);
            lemma_own_emit(s1, *inner, reg);
        },
        Shape::NewtypeVariant(e, var, inner) => {
            let (s1, vid) = fresh_atom(st, e@, var@);
            lemma_own_emit(s1, *inner, reg);
        },
        Shape::Sequence(items) => {
            let (s1, cid) = fresh_atom(st, "sequence"@, crate::export::sized_label("seq"@, items@.len()));
            lemma_own_items(s1, cid, "idx"@, "sequence"@, items@, items@.len(), reg);
        },
        Shape::Tuple(items) => {
            let (s1, cid) = fresh_atom(st, "tuple"@, crate::export::sized_label("tuple"@, items@.len()));
            lemma_own_items(s1, cid, "tuple_idx"@, "tuple"@, items@, items@.len(), reg);
        },
        Shape::TupleStruct(name, items) => {
            let (s1, cid) = fresh_atom(st, "tuple_struct"@, name@);
            lemma_own_items(s1, cid, name@ + ".idx"@, "tuple_struct"@, items@, items@.len(), reg);
        },
        Shape::TupleVariant(e, var, items) => {
            let (s1, cid) = fresh_atom(st, e@, var@);
            lemma_own_items(s1, cid, payload_scope(e@, var@) + "idx"@, "variant"@, items@, items@.len(), reg);
        },
        Shape::Mapping(entries) => {
            let (s1, cid) = fresh_atom(st, "map"@, crate::export::sized_label("map"@, entries@.len()));
            lemma_own_entries(s1, cid, entries@, entries@.len(), reg);
        },
        Shape::Struct(name, fields) => {
            let (s1, cid) = fresh_atom(st, name@, name@);
            let s2 = visit_type(s1, name@, reg);
            lemma_own_fields(s2, cid, Seq::empty(), "struct"@, fields@, fields@.len(), reg);
        },
        Shape::StructVariant(e, var, fields) => {
            let (s1, cid) = fresh_atom(st, e@, var@);
            lemma_own_fields(s1, cid, payload_scope(e@, var@), "variant"@, fields@, fields@.len(), reg);
        },
        _ => {},
    }
}

proof fn lemma_own_items(
    st: ExportModel,
    cid: Seq<char>,
    rel: Seq<char>,
    tag: Seq<char>,
    items: Seq<Shape>,
    n: nat,
    reg: Map<Seq<char>, DecoratorsV>,
)
    ensures
        own_atoms(emit_items(st, cid, rel, tag, items, n, reg)) == own_atoms(st) + items_node_count(
            items,
            n,
        ),
    decreases items, n,
{
    if n > 0 && n <= items.len() {
        lemma_own_items(st, cid, rel, tag, items, (n - 1) as nat, reg);
        let s1 = emit_items(st, cid, rel, tag, items, (n - 1) as nat, reg);
        lemma_own_emit(s1, items[n - 1], reg);
    }
}

proof fn lemma_own_entries(
    st: ExportModel,
    cid: Seq<char>,
    entries: Seq<(Shape, Shape)>,
    n: nat,
    reg: Map<Seq<char>, DecoratorsV>,
)
    ensures
        own_atoms(emit_entries(st, cid, entries, n, reg)) == own_atoms(st) + entries_node_count(
            entries,
            n,
        ),
    decreases entries, n,
{
    if n > 0 && n <= entries.len() {
        lemma_own_entries(st, cid, entries, (n - 1) as nat, reg);
        let s1 = emit_entries(st, cid, entries, (n - 1) as nat, reg);
        lemma_own_emit(s1, entries[n - 1].0, reg);
        let s2 = emit(s1, entries[n - 1].0, reg).0;
        lemma_own_emit(s2, entries[n - 1].1, reg);
    }
}

proof fn lemma_own_fields(
    st: ExportModel,
    cid: Seq<char>,
    prefix: Seq<char>,
    tag: Seq<char>,
    fields: Seq<(String, Shape)>,
    n: nat,
    reg: Map<Seq<char>, DecoratorsV>,
)
    ensures
        own_atoms(emit_fields(st, cid, prefix, tag, fields, n, reg)) == own_atoms(st) + fields_node_count(
            fields,
            n,
        ),
    decreases fields, n,
{
    if n > 0 && n <= fields.len() {
        lemma_own_fields(st, cid, prefix, tag, fields, (n - 1) as nat, reg);
        let s1 = emit_fields(st, cid, prefix, tag, fields, (n - 1) as nat, reg);
        lemma_own_emit(s1, fields[n - 1].1, reg);
    }
}

/// The atoms of an export are exactly one per occurrence that is not a
/// singleton, plus one per distinct singleton key (the cache, whose keys are
/// unique and each of which is an atom carrying its key): `k` equal data
/// values give `k` atoms, `k` equal singletons give one.
pub proof fn atom_count_is_occurrences_plus_singleton_keys(
    v: Shape,
    exclude: Option<Seq<char>>,
    reg: Map<Seq<char>, DecoratorsV>,
)
    ensures
        ({
            let st = exported(v, exclude, reg);
            &&& st.atoms.len() == node_count(v) + st.singletons.len()
            &&& keys_unique(st.singletons)
            &&& forall|i: int| 0 <= i < st.singletons.len() ==> #[trigger] backed_at(st, i)
        }),
{
    lemma_own_emit(initial_model(exclude), v, reg);
    atoms_are_distinct_and_singletons_unique(v, exclude, reg);
}

} // verus!
