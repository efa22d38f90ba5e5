//! Parameter schemas of each constraint and directive kind, and validation of
//! the parameter names given for one.

use vstd::prelude::*;
use crate::text::{decimal, join, join_strings, join_strs, owned, str_eq, str_views, string_views, write_decimal};

verus! {

/// The accepted parameters of a kind: one set, or several alternative sets.
#[derive(Debug)]
pub enum ConstraintParamDef {
    Single { required: Vec<&'static str>, optional: Vec<&'static str> },
    Multiple(Vec<ParamSet>),
}

/// One set of parameters: those that must be given and those that may be.
#[derive(Debug)]
pub struct ParamSet {
    pub required: Vec<&'static str>,
    pub optional: Vec<&'static str>,
}

/// A parameter set as plain values.
pub struct ParamSetV {
    pub required: Seq<Seq<char>>,
    pub optional: Seq<Seq<char>>,
}

/// A schema as plain values.
pub enum ParamDefV {
    Single(ParamSetV),
    Multiple(Seq<ParamSetV>),
}

impl View for ParamSet {
    type V = ParamSetV;

    open spec fn view(&self) -> ParamSetV {
        ParamSetV { required: str_views(self.required@), optional: str_views(self.optional@) }
    }
}

pub open spec fn param_set_views(v: Seq<ParamSet>) -> Seq<ParamSetV> {
    v.map_values(|p: ParamSet| p@)
}

impl View for ConstraintParamDef {
    type V = ParamDefV;

    open spec fn view(&self) -> ParamDefV {
        match self {
            ConstraintParamDef::Single { required, optional } => ParamDefV::Single(
                ParamSetV { required: str_views(required@), optional: str_views(optional@) },
            ),
            ConstraintParamDef::Multiple(sets) => ParamDefV::Multiple(param_set_views(sets@)),
        }
    }
}

/// Schemas by kind name.
#[derive(Debug)]
pub struct ParamTable {
    pub entries: Vec<(&'static str, ConstraintParamDef)>,
}

/// The schema listed first under `name`.
pub open spec fn table_lookup(entries: Seq<(Seq<char>, ParamDefV)>, name: Seq<char>) -> Option<ParamDefV>
    decreases entries.len(),
{
    if entries.len() == 0 {
        None
    } else if entries[0].0 == name {
        Some(entries[0].1)
    } else {
        table_lookup(entries.skip(1), name)
    }
}

impl ParamTable {
    pub open spec fn view(&self) -> Seq<(Seq<char>, ParamDefV)> {
        self.entries@.map_values(|e: (&'static str, ConstraintParamDef)| (e.0@, e.1@))
    }

    /// The schema of a kind.
    pub fn get(&self, name: &str) -> (r: Option<&ConstraintParamDef>)
        ensures
            r matches Some(d) ==> table_lookup(self.view(), name@) == Some(d@),
            r is None ==> table_lookup(self.view(), name@) is None,
    {
        let mut i: usize = 0;
        proof {
            assert(self.view().skip(0) =~= self.view());
        }
        while i < self.entries.len()
            invariant
                i <= self.entries@.len(),
                table_lookup(self.view(), name@) == table_lookup(self.view().skip(i as int), name@),
            decreases self.entries@.len() - i,
        {
            proof {
                assert(self.view().skip(i as int).skip(1) =~= self.view().skip(i + 1));
            }
            if str_eq(self.entries[i].0, name) {
                return Some(&self.entries[i].1);
            }
            i = i + 1;
        }
        None
    }
}

fn strs1(a: &'static str) -> (r: Vec<&'static str>)
    ensures
        str_views(r@) == seq![a@],
{
    let mut v: Vec<&'static str> = Vec::new();
    v.push(a);
    proof {
        assert(str_views(v@) =~= seq![a@]);
    }
    v
}

fn strs2(a: &'static str, b: &'static str) -> (r: Vec<&'static str>)
    ensures
        str_views(r@) == seq![a@, b@],
{
    let mut v: Vec<&'static str> = Vec::new();
    v.push(a);
    v.push(b);
    proof {
        assert(str_views(v@) =~= seq![a@, b@]);
    }
    v
}

fn strs3(a: &'static str, b: &'static str, c: &'static str) -> (r: Vec<&'static str>)
    ensures
        str_views(r@) == seq![a@, b@, c@],
{
    let mut v: Vec<&'static str> = Vec::new();
    v.push(a);
    v.push(b);
    v.push(c);
    proof {
        assert(str_views(v@) =~= seq![a@, b@, c@]);
    }
    v
}

fn none() -> (r: Vec<&'static str>)
    ensures
        str_views(r@) == Seq::<Seq<char>>::empty(),
{
    let v: Vec<&'static str> = Vec::new();
    proof {
        assert(str_views(v@) =~= Seq::<Seq<char>>::empty());
    }
    v
}

pub open spec fn single(required: Seq<Seq<char>>, optional: Seq<Seq<char>>) -> ParamDefV {
    ParamDefV::Single(ParamSetV { required, optional })
}

/// The schemas of the constraint kinds.
pub open spec fn constraint_schemas() -> Seq<(Seq<char>, ParamDefV)> {
    seq![
        ("orientation"@, single(seq!["selector"@, "directions"@], seq![])),
        ("cyclic"@, single(seq!["selector"@, "direction"@], seq![])),
        ("group"@, ParamDefV::Multiple(seq![
            ParamSetV { required: seq!["field"@, "groupOn"@, "addToGroup"@], optional: seq!["selector"@] },
            ParamSetV { required: seq!["selector"@, "name"@], optional: seq![] },
        ])),
    ]
}

/// The schemas of the directive kinds.
pub open spec fn directive_schemas() -> Seq<(Seq<char>, ParamDefV)> {
    seq![
        ("atomColor"@, single(seq!["selector"@, "value"@], seq![])),
        ("size"@, single(seq!["selector"@, "height"@, "width"@], seq![])),
        ("icon"@, single(seq!["selector"@, "path"@, "showLabels"@], seq![])),
        ("edgeColor"@, single(seq!["field"@, "value"@], seq!["selector"@])),
        ("projection"@, single(seq!["sig"@], seq![])),
        ("attribute"@, single(seq!["field"@], seq!["selector"@])),
        ("hideField"@, single(seq!["field"@], seq!["selector"@])),
        ("hideAtom"@, single(seq!["selector"@], seq![])),
        ("inferredEdge"@, single(seq!["name"@, "selector"@], seq![])),
        ("flag"@, single(seq!["name"@], seq![])),
    ]
}

fn add_entry(t: &mut Vec<(&'static str, ConstraintParamDef)>, name: &'static str, def: ConstraintParamDef)
    ensures
        final(t)@ == old(t)@.push((name, def)),
{
    t.push((name, def));
}

/// The parameter schemas of the constraint kinds.
pub fn get_constraint_params() -> (r: ParamTable)
    ensures
        r.view() == constraint_schemas(),
{
    let mut t: Vec<(&'static str, ConstraintParamDef)> = Vec::new();
    add_entry(&mut t, "orientation", ConstraintParamDef::Single {
        required: strs2("selector", "directions"),
        optional: none(),
    });
    add_entry(&mut t, "cyclic", ConstraintParamDef::Single {
        required: strs2("selector", "direction"),
        optional: none(),
    });
    let mut sets: Vec<ParamSet> = Vec::new();
    sets.push(ParamSet { required: strs3("field", "groupOn", "addToGroup"), optional: strs1("selector") });
    sets.push(ParamSet { required: strs2("selector", "name"), optional: none() });
    proof {
        assert(param_set_views(sets@) =~= seq![
            ParamSetV { required: seq!["field"@, "groupOn"@, "addToGroup"@], optional: seq!["selector"@] },
            ParamSetV { required: seq!["selector"@, "name"@], optional: seq![] },
        ]);
    }
    add_entry(&mut t, "group", ConstraintParamDef::Multiple(sets));
    let r = ParamTable { entries: t };
    proof {
        assert(r.view() =~= constraint_schemas());
    }
    r
}

/// The parameter schemas of the directive kinds.
pub fn get_directive_params() -> (r: ParamTable)
    ensures
        r.view() == directive_schemas(),
{
    let mut t: Vec<(&'static str, ConstraintParamDef)> = Vec::new();
    add_entry(&mut t, "atomColor", ConstraintParamDef::Single {
        required: strs2("selector", "value"),
        optional: none(),
    });
    add_entry(&mut t, "size", ConstraintParamDef::Single {
        required: strs3("selector", "height", "width"),
        optional: none(),
    });
    add_entry(&mut t, "icon", ConstraintParamDef::Single {
        required: strs3("selector", "path", "showLabels"),
        optional: none(),
    });
    add_entry(&mut t, "edgeColor", ConstraintParamDef::Single {
        required: strs2("field", "value"),
        optional: strs1("selector"),
    });
    add_entry(&mut t, "projection", ConstraintParamDef::Single {
        required: strs1("sig"),
        optional: none(),
    });
    add_entry(&mut t, "attribute", ConstraintParamDef::Single {
        required: strs1("field"),
        optional: strs1("selector"),
    });
    add_entry(&mut t, "hideField", ConstraintParamDef::Single {
        required: strs1("field"),
        optional: strs1("selector"),
    });
    add_entry(&mut t, "hideAtom", ConstraintParamDef::Single {
        required: strs1("selector"),
        optional: none(),
    });
    add_entry(&mut t, "inferredEdge", ConstraintParamDef::Single {
        required: strs2("name", "selector"),
        optional: none(),
    });
    add_entry(&mut t, "flag", ConstraintParamDef::Single {
        required: strs1("name"),
        optional: none(),
    });
    let r = ParamTable { entries: t };
    proof {
        assert(r.view() =~= directive_schemas());
    }
    r
}

/// The required names that are not provided, in schema order.
pub open spec fn missing_params(required: Seq<Seq<char>>, provided: Seq<Seq<char>>) -> Seq<Seq<char>>
    decreases required.len(),
{
    if required.len() == 0 {
        Seq::empty()
    } else if provided.contains(required.last()) {
        missing_params(required.drop_last(), provided)
    } else {
        missing_params(required.drop_last(), provided).push(required.last())
    }
}

/// The provided names that are neither required nor optional, in given order.
pub open spec fn unknown_params(provided: Seq<Seq<char>>, valid: Seq<Seq<char>>) -> Seq<Seq<char>>
    decreases provided.len(),
{
    if provided.len() == 0 {
        Seq::empty()
    } else if valid.contains(provided.last()) {
        unknown_params(provided.drop_last(), valid)
    } else {
        unknown_params(provided.drop_last(), valid).push(provided.last())
    }
}

pub open spec fn missing_message(kind: Seq<char>, missing: Seq<Seq<char>>) -> Seq<char> {
    "Missing required parameters for '"@ + kind + "': ["@ + join(missing, ", "@) + "]"@
}

pub open spec fn unknown_message(kind: Seq<char>, unknown: Seq<Seq<char>>, valid: Seq<Seq<char>>) -> Seq<char> {
    "Unknown parameters for '"@ + kind + "': ["@ + join(unknown, ", "@) + "]. Valid parameters: ["@
        + join(valid, ", "@) + "]"@
}

/// The outcome of checking the provided names against one parameter set.
pub open spec fn check_set(kind: Seq<char>, provided: Seq<Seq<char>>, set: ParamSetV) -> Result<(), Seq<char>> {
    let missing = missing_params(set.required, provided);
    let valid = set.required + set.optional;
    let unknown = unknown_params(provided, valid);
    if missing.len() > 0 {
        Err(missing_message(kind, missing))
    } else if unknown.len() > 0 {
        Err(unknown_message(kind, unknown, valid))
    } else {
        Ok(())
    }
}

/// Whether the provided names fit a parameter set: every required name is
/// given, and every given name is required or optional.
pub open spec fn fits(provided: Seq<Seq<char>>, set: ParamSetV) -> bool {
    &&& forall|i: int| 0 <= i < set.required.len() ==> provided.contains(#[trigger] set.required[i])
    &&& forall|i: int| 0 <= i < provided.len() ==> (set.required + set.optional).contains(#[trigger] provided[i])
}

/// The description of the `i`-th set (from zero) in a failure report.
pub open spec fn set_description(i: nat, set: ParamSetV) -> Seq<char> {
    "Set "@ + decimal(i + 1) + ": required: ["@ + join(set.required, ", "@) + "], optional: ["@
        + join(set.optional, ", "@) + "]"@
}

pub open spec fn set_descriptions(sets: Seq<ParamSetV>) -> Seq<Seq<char>> {
    Seq::new(sets.len(), |i: int| set_description(i as nat, sets[i]))
}

/// Why the provided names do not fit the `i`-th set (from zero): the set's
/// own missing-parameter or unknown-parameter message.
pub open spec fn set_reason(i: nat, kind: Seq<char>, provided: Seq<Seq<char>>, set: ParamSetV) -> Seq<char> {
    "Set "@ + decimal(i + 1) + ": "@ + match check_set(kind, provided, set) {
        Err(m) => m,
        Ok(_) => Seq::empty(),
    }
}

pub open spec fn set_reasons(kind: Seq<char>, sets: Seq<ParamSetV>, provided: Seq<Seq<char>>) -> Seq<Seq<char>> {
    Seq::new(sets.len(), |i: int| set_reason(i as nat, kind, provided, sets[i]))
}

pub open spec fn no_set_message(kind: Seq<char>, sets: Seq<ParamSetV>, provided: Seq<Seq<char>>) -> Seq<char> {
    "No valid parameter set found for '"@ + kind + "'. Expected one of: "@ + join(
        set_descriptions(sets),
        " OR "@,
    ) + ". Provided: ["@ + join(provided, ", "@) + "]. Problems: "@ + join(
        set_reasons(kind, sets, provided),
        "; "@,
    )
}

/// The outcome of validating the provided names against a schema.
pub open spec fn validation(kind: Seq<char>, provided: Seq<Seq<char>>, def: ParamDefV) -> Result<(), Seq<char>> {
    match def {
        ParamDefV::Single(set) => check_set(kind, provided, set),
        ParamDefV::Multiple(sets) => if exists|i: int| 0 <= i < sets.len() && fits(provided, #[trigger] sets[i]) {
            Ok(())
        } else {
            Err(no_set_message(kind, sets, provided))
        },
    }
}

pub open spec fn result_view(r: Result<(), String>) -> Result<(), Seq<char>> {
    match r {
        Ok(()) => Ok(()),
        Err(e) => Err(e@),
    }
}

proof fn lemma_all_contained(items: Seq<Seq<char>>, pool: Seq<Seq<char>>)
    requires
        items.len() > 0,
    ensures
        (forall|i: int| 0 <= i < items.len() ==> pool.contains(#[trigger] items[i])) <==> ((forall|
            i: int,
        | 0 <= i < items.drop_last().len() ==> pool.contains(#[trigger] items.drop_last()[i]))
            && pool.contains(items.last())),
{
    let init = items.drop_last();
    if forall|i: int| 0 <= i < init.len() ==> pool.contains(#[trigger] init[i]) {
        if pool.contains(items.last()) {
            assert forall|i: int| 0 <= i < items.len() implies pool.contains(#[trigger] items[i]) by {
                if i < init.len() {
                    assert(init[i] == items[i]);
                }
            }
        }
    }
    if forall|i: int| 0 <= i < items.len() ==> pool.contains(#[trigger] items[i]) {
        assert forall|i: int| 0 <= i < init.len() implies pool.contains(#[trigger] init[i]) by {
            assert(init[i] == items[i]);
        }
        assert(pool.contains(items[items.len() - 1]));
    }
}

proof fn lemma_missing_empty(required: Seq<Seq<char>>, provided: Seq<Seq<char>>)
    ensures
        missing_params(required, provided).len() == 0 <==> forall|i: int|
            0 <= i < required.len() ==> provided.contains(#[trigger] required[i]),
    decreases required.len(),
{
    if required.len() > 0 {
        lemma_missing_empty(required.drop_last(), provided);
        lemma_all_contained(required, provided);
    }
}

proof fn lemma_unknown_empty(provided: Seq<Seq<char>>, valid: Seq<Seq<char>>)
    ensures
        unknown_params(provided, valid).len() == 0 <==> forall|i: int|
            0 <= i < provided.len() ==> valid.contains(#[trigger] provided[i]),
    decreases provided.len(),
{
    if provided.len() > 0 {
        lemma_unknown_empty(provided.drop_last(), valid);
        lemma_all_contained(provided, valid);
    }
}

/// A parameter set's check succeeds exactly when the names fit the set.
proof fn lemma_check_set_ok(kind: Seq<char>, provided: Seq<Seq<char>>, set: ParamSetV)
    ensures
        check_set(kind, provided, set) is Ok <==> fits(provided, set),
{
    lemma_missing_empty(set.required, provided);
    lemma_unknown_empty(provided, set.required + set.optional);
}

fn contains_str(items: &[String], x: &str) -> (r: bool)
    ensures
        r == string_views(items@).contains(x@),
{
    let mut i: usize = 0;
    while i < items.len()
        invariant
            i <= items@.len(),
            forall|k: int| 0 <= k < i ==> items@[k]@ != x@,
        decreases items@.len() - i,
    {
        if str_eq(items[i].as_str(), x) {
            assert(string_views(items@)[i as int] == x@);
            return true;
        }
        i = i + 1;
    }
    false
}

fn contains_static(items: &Vec<&'static str>, x: &str) -> (r: bool)
    ensures
        r == str_views(items@).contains(x@),
{
    let mut i: usize = 0;
    while i < items.len()
        invariant
            i <= items@.len(),
            forall|k: int| 0 <= k < i ==> items@[k]@ != x@,
        decreases items@.len() - i,
    {
        if str_eq(items[i], x) {
            assert(str_views(items@)[i as int] == x@);
            return true;
        }
        i = i + 1;
    }
    false
}

/// Checks the provided names against one parameter set.
fn validate_single_param_set(
    kind: &str,
    provided: &[String],
    required: &Vec<&'static str>,
    optional: &Vec<&'static str>,
) -> (r: Result<(), String>)
    ensures
        result_view(r) == check_set(
            kind@,
            string_views(provided@),
            ParamSetV { required: str_views(required@), optional: str_views(optional@) },
        ),
{
    let ghost pv = string_views(provided@);
    let ghost req = str_views(required@);
    let ghost opt = str_views(optional@);
    let mut missing: Vec<&'static str> = Vec::new();
    let mut i: usize = 0;
    while i < required.len()
        invariant
            i <= required@.len(),
            pv == string_views(provided@),
            req == str_views(required@),
            str_views(missing@) == missing_params(req.take(i as int), pv),
        decreases required@.len() - i,
    {
        let ghost before = missing@;
        proof {
            assert(req.take(i + 1).drop_last() =~= req.take(i as int));
            assert(req.take(i + 1).last() == required@[i as int]@);
        }
        if !contains_str(provided, required[i]) {
            missing.push(required[i]);
            proof {
                assert(str_views(missing@) =~= str_views(before).push(required@[i as int]@));
            }
        }
        i = i + 1;
    }
    proof {
        assert(req.take(i as int) =~= req);
    }
    if missing.len() > 0 {
        let mut msg = owned("Missing required parameters for '");
        msg.append(kind);
        msg.append("': [");
        msg.append(join_strs(missing.as_slice(), ", ").as_str());
        msg.append("]");
        return Err(msg);
    }
    let mut valid: Vec<&'static str> = Vec::new();
    let mut j: usize = 0;
    while j < required.len()
        invariant
            j <= required@.len(),
            str_views(valid@) == str_views(required@.take(j as int)),
        decreases required@.len() - j,
    {
        let ghost before = valid@;
        valid.push(required[j]);
        proof {
            assert(required@.take(j + 1) =~= required@.take(j as int).push(required@[j as int]));
            assert(str_views(valid@) =~= str_views(before).push(required@[j as int]@));
            assert(str_views(required@.take(j + 1)) =~= str_views(required@.take(j as int)).push(
                required@[j as int]@,
            ));
        }
        j = j + 1;
    }
    let mut k: usize = 0;
    while k < optional.len()
        invariant
            k <= optional@.len(),
            str_views(valid@) == req + str_views(optional@.take(k as int)),
            req == str_views(required@),
        decreases optional@.len() - k,
    {
        proof {
            if k == 0 {
                assert(required@.take(required@.len() as int) =~= required@);
            }
        }
        let ghost before = valid@;
        valid.push(optional[k]);
        proof {
            assert(optional@.take(k + 1) =~= optional@.take(k as int).push(optional@[k as int]));
            assert(str_views(valid@) =~= str_views(before).push(optional@[k as int]@));
            assert(str_views(optional@.take(k + 1)) =~= str_views(optional@.take(k as int)).push(
                optional@[k as int]@,
            ));
        }
        k = k + 1;
    }
    proof {
        assert(required@.take(required@.len() as int) =~= required@);
        assert(optional@.take(k as int) =~= optional@);
    }
    let mut unknown: Vec<String> = Vec::new();
    let mut m: usize = 0;
    while m < provided.len()
        invariant
            m <= provided@.len(),
            pv == string_views(provided@),
            string_views(unknown@) == unknown_params(pv.take(m as int), str_views(valid@)),
        decreases provided@.len() - m,
    {
        let ghost before = unknown@;
        proof {
            assert(pv.take(m + 1).drop_last() =~= pv.take(m as int));
            assert(pv.take(m + 1).last() == provided@[m as int]@);
        }
        if !contains_static(&valid, provided[m].as_str()) {
            unknown.push(provided[m].clone());
            proof {
                assert(string_views(unknown@) =~= string_views(before).push(provided@[m as int]@));
            }
        }
        m = m + 1;
    }
    proof {
        assert(pv.take(m as int) =~= pv);
    }
    if unknown.len() > 0 {
        let mut msg = owned("Unknown parameters for '");
        msg.append(kind);
        msg.append("': [");
        msg.append(join_strings(unknown.as_slice(), ", ").as_str());
        msg.append("]. Valid parameters: [");
        msg.append(join_strs(valid.as_slice(), ", ").as_str());
        msg.append("]");
        return Err(msg);
    }
    Ok(())
}

fn describe_set(i: usize, set: &ParamSet) -> (r: String)
    requires
        i < usize::MAX,
    ensures
        r@ == set_description(i as nat, set@),
{
    let mut d = owned("Set ");
    write_decimal(&mut d, (i + 1) as u64);
    d.append(": required: [");
    d.append(join_strs(set.required.as_slice(), ", ").as_str());
    d.append("], optional: [");
    d.append(join_strs(set.optional.as_slice(), ", ").as_str());
    d.append("]");
    d
}

/// Validates the names of the parameters given for an annotation kind against
/// its schema. For a schema with several sets, the names must fit one of them.
pub fn validate_params(kind: &str, provided_params: &[String], param_def: &ConstraintParamDef) -> (r: Result<
    (),
    String,
>)
    ensures
        result_view(r) == validation(kind@, string_views(provided_params@), param_def@),
        r is Ok <==> match param_def@ {
            ParamDefV::Single(set) => fits(string_views(provided_params@), set),
            ParamDefV::Multiple(sets) => exists|i: int|
                0 <= i < sets.len() && fits(string_views(provided_params@), #[trigger] sets[i]),
        },
{
    let ghost pv = string_views(provided_params@);
    match param_def {
        ConstraintParamDef::Single { required, optional } => {
            let r = validate_single_param_set(kind, provided_params, required, optional);
            proof {
                lemma_check_set_ok(
                    kind@,
                    pv,
                    ParamSetV { required: str_views(required@), optional: str_views(optional@) },
                );
            }
            r
        },
        ConstraintParamDef::Multiple(param_sets) => {
            let ghost sets = param_set_views(param_sets@);
            assert(param_def@ == ParamDefV::Multiple(sets));
            let mut reasons: Vec<String> = Vec::new();
            let mut i: usize = 0;
            while i < param_sets.len()
                invariant
                    i <= param_sets@.len(),
                    sets == param_set_views(param_sets@),
                    param_def@ == ParamDefV::Multiple(sets),
                    pv == string_views(provided_params@),
                    forall|k: int| 0 <= k < i ==> !fits(pv, #[trigger] sets[k]),
                    string_views(reasons@) =~= Seq::new(
                        i as nat,
                        |k: int| set_reason(k as nat, kind@, pv, sets[k]),
                    ),
                decreases param_sets@.len() - i,
            {
                let set = &param_sets[i];
                let r = validate_single_param_set(kind, provided_params, &set.required, &set.optional);
                proof {
                    lemma_check_set_ok(kind@, pv, set@);
                    assert(sets[i as int] == set@);
                }
                if r.is_ok() {
                    proof {
                        assert(param_def@ == ParamDefV::Multiple(sets));
                        assert(fits(pv, sets[i as int]));
                        assert(validation(kind@, pv, param_def@) == Ok::<(), Seq<char>>(()));
                    }
                    return Ok(());
                }
                if let Err(e) = r {
                    let mut reason = owned("Set ");
                    write_decimal(&mut reason, (i + 1) as u64);
                    reason.append(": ");
                    reason.append(e.as_str());
                    let ghost before = reasons@;
                    reasons.push(reason);
                    proof {
                        assert(string_views(reasons@) =~= string_views(before).push(
                            set_reason(i as nat, kind@, pv, sets[i as int]),
                        ));
                    }
                }
                i = i + 1;
            }
            proof {
                assert(string_views(reasons@) =~= set_reasons(kind@, sets, pv));
            }
            let mut descs: Vec<String> = Vec::new();
            let mut j: usize = 0;
            while j < param_sets.len()
                invariant
                    j <= param_sets@.len(),
                    sets == param_set_views(param_sets@),
                    param_def@ == ParamDefV::Multiple(sets),
                    string_views(descs@) =~= Seq::new(j as nat, |k: int| set_description(k as nat, sets[k])),
                decreases param_sets@.len() - j,
            {
                let ghost before = descs@;
                descs.push(describe_set(j, &param_sets[j]));
                proof {
                    assert(string_views(descs@) =~= string_views(before).push(
                        set_description(j as nat, sets[j as int]),
                    ));
                }
                j = j + 1;
            }
            proof {
                assert(string_views(descs@) =~= set_descriptions(sets));
            }
            let mut msg = owned("No valid parameter set found for '");
            msg.append(kind);
            msg.append("'. Expected one of: ");
            msg.append(join_strings(descs.as_slice(), " OR ").as_str());
            msg.append(". Provided: [");
            msg.append(join_strings(provided_params, ", ").as_str());
            msg.append("]. Problems: ");
            msg.append(join_strings(reasons.as_slice(), "; ").as_str());
            Err(msg)
        },
    }
}

} // verus!
