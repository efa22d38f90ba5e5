//! Runtime annotations of individual instances, and the store that keeps the
//! decorators built from them, keyed by instance identity.

use vstd::prelude::*;
use crate::decorators::{
    AtomColorDirective, AtomColorParams, CndDecorators, Constraint, ConstraintV, CyclicConstraint,
    CyclicParams, DecoratorsV, Directive, DirectiveV, FlagDirective, OrientationConstraint,
    OrientationParams, constraint_views, directive_views, empty_decorators, merged,
};
use crate::registry::{TypeRegistry, get_type_decorators, registered_or_empty};
use crate::text::{
    decimal, owned, replace_all, replace_all_str, str_eq, str_views,
    string_views, write_decimal,
};

verus! {

/// A loosely typed annotation parameter.
#[derive(Debug)]
pub enum ParamValue {
    Text(String),
    List(Vec<ParamValue>),
    Other,
}

/// Named annotation parameters; a later entry for a key shadows an earlier one.
#[derive(Debug)]
pub struct ParamBag {
    pub entries: Vec<(String, ParamValue)>,
}

/// An annotation to apply to one instance: its kind and its parameters.
#[derive(Debug)]
pub struct Annotation {
    pub annotation_type: String,
    pub params: ParamBag,
}

/// The value stored under `key`, looking from the most recent entry.
pub open spec fn bag_lookup(entries: Seq<(String, ParamValue)>, key: Seq<char>) -> Option<ParamValue>
    decreases entries.len(),
{
    if entries.len() == 0 {
        None
    } else if entries.last().0@ == key {
        Some(entries.last().1)
    } else {
        bag_lookup(entries.drop_last(), key)
    }
}

/// The text items of a list, in order; items that are not text are skipped.
pub open spec fn text_items(items: Seq<ParamValue>) -> Seq<Seq<char>>
    decreases items.len(),
{
    if items.len() == 0 {
        Seq::empty()
    } else {
        match items.last() {
            ParamValue::Text(s) => text_items(items.drop_last()).push(s@),
            _ => text_items(items.drop_last()),
        }
    }
}

/// The parameter `key` when it is text.
pub open spec fn param_text(bag: ParamBag, key: Seq<char>) -> Option<Seq<char>> {
    match bag_lookup(bag.entries@, key) {
        Some(ParamValue::Text(s)) => Some(s@),
        _ => None,
    }
}

/// The text items of the parameter `key` when it is a list.
pub open spec fn param_list(bag: ParamBag, key: Seq<char>) -> Option<Seq<Seq<char>>> {
    match bag_lookup(bag.entries@, key) {
        Some(ParamValue::List(items)) => Some(text_items(items@)),
        _ => None,
    }
}

impl ParamBag {
    /// An empty bag.
    pub fn new() -> (r: Self)
        ensures
            r.entries@ == Seq::<(String, ParamValue)>::empty(),
    {
        ParamBag { entries: Vec::new() }
    }

    /// Stores `value` under `key`, shadowing any earlier value of that key.
    pub fn insert(&mut self, key: String, value: ParamValue)
        ensures
            final(self).entries@ == old(self).entries@.push((key, value)),
    {
        self.entries.push((key, value));
    }

    /// The value stored under `key`.
    pub fn get(&self, key: &str) -> (r: Option<&ParamValue>)
        ensures
            r matches Some(v) ==> bag_lookup(self.entries@, key@) == Some(*v),
            r is None ==> bag_lookup(self.entries@, key@) is None,
    {
        let mut i = self.entries.len();
        proof {
            assert(self.entries@.take(i as int) =~= self.entries@);
        }
        while i > 0
            invariant
                i <= self.entries@.len(),
                bag_lookup(self.entries@, key@) == bag_lookup(self.entries@.take(i as int), key@),
            decreases i,
        {
            proof {
                assert(self.entries@.take(i as int).drop_last() =~= self.entries@.take(i - 1));
            }
            if str_eq(self.entries[i - 1].0.as_str(), key) {
                return Some(&self.entries[i - 1].1);
            }
            i = i - 1;
        }
        None
    }

    /// Whether a value is stored under `key`.
    pub fn contains_key(&self, key: &str) -> (r: bool)
        ensures
            r == bag_lookup(self.entries@, key@) is Some,
    {
        self.get(key).is_some()
    }

    fn get_text(&self, key: &str) -> (r: Option<String>)
        ensures
            crate::decorators::opt_view(r) == param_text(*self, key@),
    {
        match self.get(key) {
            Some(ParamValue::Text(s)) => Some(s.clone()),
            _ => None,
        }
    }

    fn get_text_list(&self, key: &str) -> (r: Option<Vec<String>>)
        ensures
            r is None <==> param_list(*self, key@) is None,
            r matches Some(v) ==> param_list(*self, key@) == Some(string_views(v@)),
    {
        match self.get(key) {
            Some(ParamValue::List(items)) => {
                let mut out: Vec<String> = Vec::new();
                let mut i: usize = 0;
                while i < items.len()
                    invariant
                        i <= items@.len(),
                        string_views(out@) == text_items(items@.take(i as int)),
                    decreases items@.len() - i,
                {
                    proof {
                        assert(items@.take(i + 1).drop_last() =~= items@.take(i as int));
                    }
                    let ghost before = out@;
                    match &items[i] {
                        ParamValue::Text(s) => {
                            out.push(s.clone());
                            proof {
                                assert(string_views(out@) =~= string_views(before).push(s@));
                            }
                        },
                        _ => {},
                    }
                    i = i + 1;
                }
                proof {
                    assert(items@.take(i as int) =~= items@);
                }
                Some(out)
            },
            _ => None,
        }
    }
}

/// The placeholder that stands for the instance numbered `id`.
pub open spec fn placeholder(id: u64) -> Seq<char> {
    "obj_"@ + decimal(id as nat)
}

/// A selector with each `self` token rewritten to the placeholder of `id`.
pub open spec fn with_self_replaced(selector: Seq<char>, id: u64) -> Seq<char> {
    replace_all(selector, "self"@, placeholder(id))
}

/// Rewrites each `self` token of a selector to the placeholder `obj_<id>`.
pub fn substitute_self_reference(selector: &str, id: u64) -> (r: String)
    ensures
        r@ == with_self_replaced(selector@, id),
{
    let mut rep = owned("obj_");
    write_decimal(&mut rep, id);
    proof {
        reveal_strlit("self");
    }
    replace_all_str(selector, "self", rep.as_str())
}

/// The decorators of an instance after one annotation, and whether a
/// placeholder number was used up. `id` is the number a placeholder would get.
pub open spec fn annotated(d: DecoratorsV, a: Annotation, id: u64) -> (DecoratorsV, bool) {
    let kind = a.annotation_type@;
    let bag = a.params;
    if kind == "orientation"@ {
        match (param_text(bag, "selector"@), param_list(bag, "directions"@)) {
            (Some(sel), Some(dirs)) => (
                DecoratorsV {
                    constraints: d.constraints.push(
                        ConstraintV::Orientation { selector: with_self_replaced(sel, id), directions: dirs },
                    ),
                    ..d
                },
                true,
            ),
            _ => (d, false),
        }
    } else if kind == "cyclic"@ {
        match (param_text(bag, "selector"@), param_text(bag, "direction"@)) {
            (Some(sel), Some(dir)) => (
                DecoratorsV {
                    constraints: d.constraints.push(
                        ConstraintV::Cyclic { selector: with_self_replaced(sel, id), direction: dir },
                    ),
                    ..d
                },
                true,
            ),
            _ => (d, false),
        }
    } else if kind == "atomColor"@ {
        match (param_text(bag, "selector"@), param_text(bag, "value"@)) {
            (Some(sel), Some(val)) => (
                DecoratorsV {
                    directives: d.directives.push(
                        DirectiveV::AtomColor { selector: with_self_replaced(sel, id), value: val },
                    ),
                    ..d
                },
                true,
            ),
            _ => (d, false),
        }
    } else if kind == "flag"@ {
        match param_text(bag, "name"@) {
            Some(name) => (
                DecoratorsV { directives: d.directives.push(DirectiveV::Flag { name }), ..d },
                false,
            ),
            None => (d, false),
        }
    } else {
        (d, false)
    }
}

/// The number after `n`, wrapping at the largest `u64`.
pub open spec fn next_number(n: u64) -> u64 {
    if n == u64::MAX {
        0
    } else {
        (n + 1) as u64
    }
}

/// Per-instance decorators built from runtime annotations, and the counter of
/// the placeholders minted for `self` tokens.
#[derive(Debug)]
pub struct InstanceStore {
    entries: Vec<(usize, CndDecorators)>,
    counter: u64,
}

/// The map that a list of (instance, decorators) entries describes; a later
/// entry shadows an earlier one.
pub open spec fn instance_map(s: Seq<(usize, CndDecorators)>) -> Map<usize, DecoratorsV>
    decreases s.len(),
{
    if s.len() == 0 {
        Map::empty()
    } else {
        instance_map(s.drop_last()).insert(s.last().0, s.last().1@)
    }
}

proof fn lemma_instance_map_prefix(s: Seq<(usize, CndDecorators)>, key: usize, i: int)
    requires
        0 <= i <= s.len(),
        forall|k: int| i <= k < s.len() ==> s[k].0 != key,
    ensures
        instance_map(s).contains_key(key) == instance_map(s.take(i)).contains_key(key),
        instance_map(s).contains_key(key) ==> instance_map(s)[key] == instance_map(s.take(i))[key],
    decreases s.len() - i,
{
    if i < s.len() {
        assert(s.drop_last() =~= s.take(s.len() - 1));
        assert(s.take(s.len() - 1).take(i) =~= s.take(i));
        lemma_instance_map_prefix(s.take(s.len() - 1), key, i);
    } else {
        assert(s.take(i) =~= s);
    }
}

proof fn lemma_instance_map_update(s: Seq<(usize, CndDecorators)>, i: int, e: (usize, CndDecorators))
    requires
        0 <= i < s.len(),
        e.0 == s[i].0,
        forall|k: int| i < k < s.len() ==> s[k].0 != e.0,
    ensures
        instance_map(s.update(i, e)) == instance_map(s).insert(e.0, e.1@),
    decreases s.len(),
{
    let t = s.update(i, e);
    if i == s.len() - 1 {
        assert(t.drop_last() =~= s.drop_last());
        assert(instance_map(s).insert(e.0, e.1@) =~= instance_map(s.drop_last()).insert(e.0, e.1@));
    } else {
        assert(t.drop_last() =~= s.drop_last().update(i, e));
        lemma_instance_map_update(s.drop_last(), i, e);
        assert(instance_map(t) =~= instance_map(s).insert(e.0, e.1@));
    }
}

/// The stored decorators of an instance, or the empty set.
pub open spec fn stored_or_empty(m: Map<usize, DecoratorsV>, instance: usize) -> DecoratorsV {
    if m.contains_key(instance) {
        m[instance]
    } else {
        empty_decorators()
    }
}

impl InstanceStore {
    pub closed spec fn view(&self) -> Map<usize, DecoratorsV> {
        instance_map(self.entries@)
    }

    /// The number that the next minted placeholder gets.
    pub closed spec fn next_id(&self) -> u64 {
        next_number(self.counter)
    }

    /// An empty store; the first placeholder is `obj_1`.
    pub fn new() -> (r: Self)
        ensures
            r.view() == Map::<usize, DecoratorsV>::empty(),
            r.next_id() == 1,
    {
        InstanceStore { entries: Vec::new(), counter: 0 }
    }

    fn find(&self, instance: usize) -> (r: Option<usize>)
        ensures
            r is None ==> !self.view().contains_key(instance),
            r matches Some(i) ==> i < self.entries@.len() && self.entries@[i as int].0 == instance
                && self.view().contains_key(instance) && self.view()[instance]
                == self.entries@[i as int].1@ && forall|k: int|
                i < k < self.entries@.len() ==> self.entries@[k].0 != instance,
    {
        let mut i = self.entries.len();
        while i > 0
            invariant
                i <= self.entries@.len(),
                forall|k: int| i <= k < self.entries@.len() ==> self.entries@[k].0 != instance,
            decreases i,
        {
            if self.entries[i - 1].0 == instance {
                proof {
                    let s = self.entries@;
                    lemma_instance_map_prefix(s, instance, i as int);
                    assert(s.take(i as int).drop_last() =~= s.take(i - 1));
                    assert(s.take(i as int).last() == s[i - 1]);
                }
                return Some(i - 1);
            }
            i = i - 1;
        }
        proof {
            lemma_instance_map_prefix(self.entries@, instance, 0);
            assert(self.entries@.take(0) =~= Seq::<(usize, CndDecorators)>::empty());
        }
        None
    }

    /// The stored decorators of an instance, if any.
    pub fn get(&self, instance: usize) -> (r: Option<CndDecorators>)
        ensures
            r is Some <==> self.view().contains_key(instance),
            r matches Some(d) ==> d@ == self.view()[instance],
    {
        match self.find(instance) {
            Some(i) => Some(self.entries[i].1.clone()),
            None => None,
        }
    }
}

fn apply_annotation(d: &mut CndDecorators, annotation: &Annotation, id: u64) -> (used: bool)
    ensures
        (final(d)@, used) == annotated(old(d)@, *annotation, id),
{
    let kind = annotation.annotation_type.as_str();
    let bag = &annotation.params;
    if str_eq(kind, "orientation") {
        match (bag.get_text("selector"), bag.get_text_list("directions")) {
            (Some(sel), Some(dirs)) => {
                let c = Constraint::Orientation(
                    OrientationConstraint {
                        orientation: OrientationParams {
                            selector: substitute_self_reference(sel.as_str(), id),
                            directions: dirs,
                        },
                    },
                );
                let ghost before = d.constraints@;
                d.constraints.push(c);
                proof {
                    assert(constraint_views(d.constraints@) =~= constraint_views(before).push(c@));
                }
                true
            },
            _ => false,
        }
    } else if str_eq(kind, "cyclic") {
        match (bag.get_text("selector"), bag.get_text("direction")) {
            (Some(sel), Some(dir)) => {
                let c = Constraint::Cyclic(
                    CyclicConstraint {
                        cyclic: CyclicParams {
                            selector: substitute_self_reference(sel.as_str(), id),
                            direction: dir,
                        },
                    },
                );
                let ghost before = d.constraints@;
                d.constraints.push(c);
                proof {
                    assert(constraint_views(d.constraints@) =~= constraint_views(before).push(c@));
                }
                true
            },
            _ => false,
        }
    } else if str_eq(kind, "atomColor") {
        match (bag.get_text("selector"), bag.get_text("value")) {
            (Some(sel), Some(val)) => {
                let x = Directive::AtomColor(
                    AtomColorDirective {
                        atom_color: AtomColorParams {
                            selector: substitute_self_reference(sel.as_str(), id),
                            value: val,
                        },
                    },
                );
                let ghost before = d.directives@;
                d.directives.push(x);
                proof {
                    assert(directive_views(d.directives@) =~= directive_views(before).push(x@));
                }
                true
            },
            _ => false,
        }
    } else if str_eq(kind, "flag") {
        match bag.get_text("name") {
            Some(name) => {
                let x = Directive::Flag(FlagDirective { flag: name });
                let ghost before = d.directives@;
                d.directives.push(x);
                proof {
                    assert(directive_views(d.directives@) =~= directive_views(before).push(x@));
                }
                false
            },
            None => false,
        }
    } else {
        false
    }
}

/// Applies an annotation to an instance: the instance's entry is created on
/// first use, and gets the constraint or directive that the annotation
/// describes. An annotation of an unknown kind, or without the parameters its
/// kind needs, adds nothing. Each `self` token in a selector becomes a freshly
/// numbered placeholder.
pub fn annotate_instance(store: &mut InstanceStore, instance: usize, annotation: &Annotation)
    ensures
        ({
            let (d, used) = annotated(
                stored_or_empty(old(store).view(), instance),
                *annotation,
                old(store).next_id(),
            );
            &&& final(store).view() == old(store).view().insert(instance, d)
            &&& final(store).next_id() == if used {
                next_number(old(store).next_id())
            } else {
                old(store).next_id()
            }
        }),
{
    let id = store.counter.wrapping_add(1);
    let i = match store.find(instance) {
        Some(i) => i,
        None => {
            let ghost before = store.entries@;
            store.entries.push((instance, CndDecorators::new()));
            proof {
                assert(store.entries@.drop_last() =~= before);
            }
            store.entries.len() - 1
        },
    };
    let ghost before = store.entries@;
    let (key, mut d) = store.entries.remove(i);
    let used = apply_annotation(&mut d, annotation, id);
    store.entries.insert(i, (key, d));
    proof {
        assert(store.entries@ =~= before.update(i as int, (key, d)));
        lemma_instance_map_update(before, i as int, (key, d));
    }
    if used {
        store.counter = id;
    }
}

/// The decorators of an instance: those registered for its type, followed by
/// those added to the instance itself.
pub fn collect_decorators_for_instance(
    registry: &TypeRegistry,
    store: &InstanceStore,
    instance_type: &str,
    instance: usize,
) -> (r: CndDecorators)
    ensures
        r@ == merged(
            registered_or_empty(registry.view(), instance_type@),
            stored_or_empty(store.view(), instance),
        ),
{
    let mut combined = match get_type_decorators(registry, instance_type) {
        Some(d) => d,
        None => CndDecorators::new(),
    };
    if let Some(d) = store.get(instance) {
        combined.absorb(&d);
    } else {
        proof {
            assert(combined@.constraints + Seq::<ConstraintV>::empty() =~= combined@.constraints);
            assert(combined@.directives + Seq::<DirectiveV>::empty() =~= combined@.directives);
        }
    }
    combined
}

/// The decorators added to an instance itself, without those of its type.
pub fn collect_instance_only_decorators(store: &InstanceStore, instance: usize) -> (r: CndDecorators)
    ensures
        r@ == stored_or_empty(store.view(), instance),
{
    match store.get(instance) {
        Some(d) => d,
        None => CndDecorators::new(),
    }
}

/// The value is the text `t`.
pub open spec fn is_text(v: ParamValue, t: Seq<char>) -> bool {
    match v {
        ParamValue::Text(s) => s@ == t,
        _ => false,
    }
}

/// The value is a list of exactly the texts `ts`, in order.
pub open spec fn is_text_list(v: ParamValue, ts: Seq<Seq<char>>) -> bool {
    match v {
        ParamValue::List(items) => items@.len() == ts.len() && forall|i: int|
            0 <= i < ts.len() ==> is_text(#[trigger] items@[i], ts[i]),
        _ => false,
    }
}

fn text_list(items: &Vec<&str>) -> (r: Vec<ParamValue>)
    ensures
        text_items(r@) == str_views(items@),
        r@.len() == items@.len(),
        forall|i: int| 0 <= i < items@.len() ==> is_text(#[trigger] r@[i], items@[i]@),
{
    let mut out: Vec<ParamValue> = Vec::new();
    let mut i: usize = 0;
    while i < items.len()
        invariant
            i <= items@.len(),
            text_items(out@) == str_views(items@.take(i as int)),
            out@.len() == i,
            forall|k: int| 0 <= k < i ==> is_text(#[trigger] out@[k], items@[k]@),
        decreases items@.len() - i,
    {
        let ghost before = out@;
        let v = ParamValue::Text(owned(items[i]));
        out.push(v);
        proof {
            assert(out@.drop_last() =~= before);
            assert(str_views(items@.take(i + 1)) =~= str_views(items@.take(i as int)).push(
                items@[i as int]@,
            ));
        }
        i = i + 1;
    }
    proof {
        assert(items@.take(i as int) =~= items@);
    }
    out
}

/// Builds annotations of the kinds that instances accept.
#[derive(Debug)]
pub struct AnnotationBuilder;

impl AnnotationBuilder {
    /// An orientation annotation: a selector and a list of directions.
    pub fn orientation(selector: &str, directions: Vec<&str>) -> (r: Annotation)
        ensures
            r.annotation_type@ == "orientation"@,
            r.params.entries@.len() == 2,
            r.params.entries@[0].0@ == "selector"@,
            is_text(r.params.entries@[0].1, selector@),
            r.params.entries@[1].0@ == "directions"@,
            is_text_list(r.params.entries@[1].1, str_views(directions@)),
            param_text(r.params, "selector"@) == Some(selector@),
            param_list(r.params, "directions"@) == Some(str_views(directions@)),
    {
        let mut params = ParamBag::new();
        params.insert(owned("selector"), ParamValue::Text(owned(selector)));
        params.insert(owned("directions"), ParamValue::List(text_list(&directions)));
        proof {
            reveal_strlit("selector");
            reveal_strlit("directions");
            assert("directions"@.len() != "selector"@.len());
            let e = params.entries@;
            assert(e.drop_last().last().0@ == "selector"@);
            assert(bag_lookup(e.drop_last(), "selector"@) == Some(e.drop_last().last().1));
            assert(bag_lookup(e, "selector"@) == bag_lookup(e.drop_last(), "selector"@));
        }
        Annotation { annotation_type: owned("orientation"), params }
    }

    /// A cyclic annotation: a selector and a direction.
    pub fn cyclic(selector: &str, direction: &str) -> (r: Annotation)
        ensures
            r.annotation_type@ == "cyclic"@,
            r.params.entries@.len() == 2,
            r.params.entries@[0].0@ == "selector"@,
            is_text(r.params.entries@[0].1, selector@),
            r.params.entries@[1].0@ == "direction"@,
            is_text(r.params.entries@[1].1, direction@),
            param_text(r.params, "selector"@) == Some(selector@),
            param_text(r.params, "direction"@) == Some(direction@),
    {
        let mut params = ParamBag::new();
        params.insert(owned("selector"), ParamValue::Text(owned(selector)));
        params.insert(owned("direction"), ParamValue::Text(owned(direction)));
        proof {
            reveal_strlit("selector");
            reveal_strlit("direction");
            assert("direction"@.len() != "selector"@.len());
            let e = params.entries@;
            assert(e.drop_last().last().0@ == "selector"@);
            assert(bag_lookup(e.drop_last(), "selector"@) == Some(e.drop_last().last().1));
            assert(bag_lookup(e, "selector"@) == bag_lookup(e.drop_last(), "selector"@));
        }
        Annotation { annotation_type: owned("cyclic"), params }
    }

    /// An atom-color annotation: a selector and a color value.
    pub fn atom_color(selector: &str, value: &str) -> (r: Annotation)
        ensures
            r.annotation_type@ == "atomColor"@,
            r.params.entries@.len() == 2,
            r.params.entries@[0].0@ == "selector"@,
            is_text(r.params.entries@[0].1, selector@),
            r.params.entries@[1].0@ == "value"@,
            is_text(r.params.entries@[1].1, value@),
            param_text(r.params, "selector"@) == Some(selector@),
            param_text(r.params, "value"@) == Some(value@),
    {
        let mut params = ParamBag::new();
        params.insert(owned("selector"), ParamValue::Text(owned(selector)));
        params.insert(owned("value"), ParamValue::Text(owned(value)));
        proof {
            reveal_strlit("selector");
            reveal_strlit("value");
            assert("value"@.len() != "selector"@.len());
            let e = params.entries@;
            assert(e.drop_last().last().0@ == "selector"@);
            assert(bag_lookup(e.drop_last(), "selector"@) == Some(e.drop_last().last().1));
            assert(bag_lookup(e, "selector"@) == bag_lookup(e.drop_last(), "selector"@));
        }
        Annotation { annotation_type: owned("atomColor"), params }
    }

    /// A flag annotation: a bare name.
    pub fn flag(name: &str) -> (r: Annotation)
        ensures
            r.annotation_type@ == "flag"@,
            r.params.entries@.len() == 1,
            r.params.entries@[0].0@ == "name"@,
            is_text(r.params.entries@[0].1, name@),
            param_text(r.params, "name"@) == Some(name@),
    {
        let mut params = ParamBag::new();
        params.insert(owned("name"), ParamValue::Text(owned(name)));
        proof {
            assert(params.entries@.drop_last().len() == 0);
        }
        Annotation { annotation_type: owned("flag"), params }
    }
}

} // verus!
