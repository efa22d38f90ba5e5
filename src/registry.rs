//! The type registry: decorators declared for each aggregate type name.

use vstd::prelude::*;
use crate::decorators::{CndDecorators, DecoratorsV, empty_decorators};

verus! {

/// Decorators registered per type name. A name is registered at most once:
/// registering it again leaves the first entry in place.
#[derive(Debug)]
pub struct TypeRegistry {
    entries: Vec<(String, CndDecorators)>,
}

/// The map that a list of (name, decorators) entries describes; a later entry
/// for a name shadows an earlier one.
pub open spec fn entries_map(s: Seq<(String, CndDecorators)>) -> Map<Seq<char>, DecoratorsV>
    decreases s.len(),
{
    if s.len() == 0 {
        Map::empty()
    } else {
        entries_map(s.drop_last()).insert(s.last().0@, s.last().1@)
    }
}

proof fn lemma_entries_map_last(s: Seq<(String, CndDecorators)>, name: Seq<char>, i: int)
    requires
        0 <= i <= s.len(),
        forall|k: int| i <= k < s.len() ==> s[k].0@ != name,
    ensures
        entries_map(s).contains_key(name) == entries_map(s.take(i)).contains_key(name),
        entries_map(s).contains_key(name) ==> entries_map(s)[name] == entries_map(s.take(i))[name],
    decreases s.len() - i,
{
    if i < s.len() {
        assert(s.drop_last() =~= s.take(s.len() - 1));
        assert(s.take(s.len() - 1).take(i) =~= s.take(i));
        lemma_entries_map_last(s.take(s.len() - 1), name, i);
    } else {
        assert(s.take(i) =~= s);
    }
}

impl TypeRegistry {
    pub closed spec fn view(&self) -> Map<Seq<char>, DecoratorsV> {
        entries_map(self.entries@)
    }

    /// An empty registry.
    pub fn new() -> (r: Self)
        ensures
            r.view() == Map::<Seq<char>, DecoratorsV>::empty(),
    {
        TypeRegistry { entries: Vec::new() }
    }

    /// The index of the entry for `name`, scanning from the most recent entry.
    fn find(&self, name: &str) -> (r: Option<usize>)
        ensures
            r is None ==> !self.view().contains_key(name@),
            r matches Some(i) ==> i < self.entries@.len() && self.view().contains_key(name@)
                && self.view()[name@] == self.entries@[i as int].1@,
    {
        let mut i = self.entries.len();
        while i > 0
            invariant
                i <= self.entries@.len(),
                forall|k: int| i <= k < self.entries@.len() ==> self.entries@[k].0@ != name@,
            decreases i,
        {
            if crate::text::str_eq(self.entries[i - 1].0.as_str(), name) {
                proof {
                    let s = self.entries@;
                    lemma_entries_map_last(s, name@, i as int);
                    assert(s.take(i as int).drop_last() =~= s.take(i - 1));
                    assert(s.take(i as int).last() == s[i - 1]);
                }
                return Some(i - 1);
            }
            i = i - 1;
        }
        proof {
            lemma_entries_map_last(self.entries@, name@, 0);
            assert(self.entries@.take(0) =~= Seq::<(String, CndDecorators)>::empty());
        }
        None
    }
}

/// Registers the decorators of a type under its name, unless that name is
/// registered already, in which case nothing changes.
pub fn register_type_decorators(registry: &mut TypeRegistry, name: &str, decorators: CndDecorators)
    ensures
        old(registry).view().contains_key(name@) ==> final(registry).view() == old(registry).view(),
        !old(registry).view().contains_key(name@) ==> final(registry).view() == old(registry).view().insert(
            name@,
            decorators@,
        ),
{
    if registry.find(name).is_none() {
        let ghost before = registry.entries@;
        registry.entries.push((crate::text::owned(name), decorators));
        proof {
            assert(registry.entries@.drop_last() =~= before);
        }
    }
}

/// The decorators registered for a type name, if any.
pub fn get_type_decorators(registry: &TypeRegistry, name: &str) -> (r: Option<CndDecorators>)
    ensures
        r is Some <==> registry.view().contains_key(name@),
        r matches Some(d) ==> d@ == registry.view()[name@],
{
    match registry.find(name) {
        Some(i) => Some(registry.entries[i].1.clone()),
        None => None,
    }
}

/// The registered decorators of a type name, or the empty set.
pub open spec fn registered_or_empty(reg: Map<Seq<char>, DecoratorsV>, name: Seq<char>) -> DecoratorsV {
    if reg.contains_key(name) {
        reg[name]
    } else {
        empty_decorators()
    }
}

/// Implemented by types that declare decorators of their own.
///
/// `declared` states, as plain values, what `decorators` returns: a type that
/// declares decorators overrides both.
pub trait HasCndDecorators {
    /// The decorators this type declares, as plain values; none by default.
    open spec fn declared() -> DecoratorsV {
        empty_decorators()
    }

    /// The decorators declared for this type.
    fn decorators() -> (r: CndDecorators)
        ensures
            r@ == Self::declared(),
    ;

    /// The decorators of this type together with those of the types nested in it.
    fn recursive_decorators() -> CndDecorators {
        Self::decorators()
    }

    /// Registers this type's decorators under `name`, unless that name is
    /// registered already.
    fn ensure_registered(registry: &mut TypeRegistry, name: &str)
        ensures
            old(registry).view().contains_key(name@) ==> final(registry).view() == old(registry).view(),
            !old(registry).view().contains_key(name@) ==> final(registry).view() == old(registry).view().insert(
                name@,
                Self::declared(),
            ),
    {
        register_type_decorators(registry, name, Self::decorators());
    }
}

/// The registry after registering `d` under `name`: unchanged when the name
/// is registered already.
pub open spec fn registered_with(
    reg: Map<Seq<char>, DecoratorsV>,
    name: Seq<char>,
    d: DecoratorsV,
) -> Map<Seq<char>, DecoratorsV> {
    if reg.contains_key(name) {
        reg
    } else {
        reg.insert(name, d)
    }
}

/// Registers the decorators of `T` under `name`, unless that name is
/// registered already.
pub fn ensure_types_registered<T: HasCndDecorators>(registry: &mut TypeRegistry, name: &str)
    ensures
        final(registry).view() == registered_with(old(registry).view(), name@, T::declared()),
{
    register_type_decorators(registry, name, T::decorators());
}

/// Registers the decorators of one type under its name.
pub fn register_types<T1: HasCndDecorators>(registry: &mut TypeRegistry, name1: &str)
    ensures
        final(registry).view() == registered_with(old(registry).view(), name1@, T1::declared()),
{
    ensure_types_registered::<T1>(registry, name1);
}

/// Registers the decorators of two types, each under its name, in order.
pub fn register_types2<T1: HasCndDecorators, T2: HasCndDecorators>(
    registry: &mut TypeRegistry,
    name1: &str,
    name2: &str,
)
    ensures
        final(registry).view() == registered_with(
            registered_with(old(registry).view(), name1@, T1::declared()),
            name2@,
            T2::declared(),
        ),
{
    ensure_types_registered::<T1>(registry, name1);
    ensure_types_registered::<T2>(registry, name2);
}

/// Registers the decorators of three types, each under its name, in order.
pub fn register_types3<T1: HasCndDecorators, T2: HasCndDecorators, T3: HasCndDecorators>(
    registry: &mut TypeRegistry,
    name1: &str,
    name2: &str,
    name3: &str,
)
    ensures
        final(registry).view() == registered_with(
            registered_with(
                registered_with(old(registry).view(), name1@, T1::declared()),
                name2@,
                T2::declared(),
            ),
            name3@,
            T3::declared(),
        ),
{
    ensure_types_registered::<T1>(registry, name1);
    ensure_types_registered::<T2>(registry, name2);
    ensure_types_registered::<T3>(registry, name3);
}

} // verus!
