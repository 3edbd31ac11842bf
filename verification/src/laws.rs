//! The laws the generators obey, stated once for every input and proved.
//!
//! The value-level laws model a record value as the map from its field
//! names to what those fields hold, built one field after the other exactly
//! as a record expression builds it; the dissolve tuple is then the
//! projection of every field name in declaration order.

use vstd::prelude::*;

use crate::action::{get_action_spec, ActionV};
use crate::ast::{ty_text_spec, InputFieldV, TyV, TypeDeclV};
use crate::dissolve;
use crate::extract::{named_fields_spec, named_struct_spec};
use crate::faultmsg::Problem;
use crate::getters;

verus! {

// ---------------------------------------------------------------------------
// Record values and the dissolve semantics
// ---------------------------------------------------------------------------

/// No two field names alike.
pub open spec fn distinct_names(names: Seq<Seq<char>>) -> bool {
    forall|k: int, l: int| 0 <= k < l < names.len() ==> names[k] != names[l]
}

/// The record value whose field `names[i]` holds `vals[i]`.
pub open spec fn record_of<V>(names: Seq<Seq<char>>, vals: Seq<V>) -> Map<Seq<char>, V>
    decreases names.len(),
{
    if names.len() == 0 || vals.len() == 0 {
        Map::empty()
    } else {
        record_of(names.drop_last(), vals.drop_last()).insert(names.last(), vals.last())
    }
}

/// What the generated consuming `dissolve` returns for a record value: each
/// named field projected, in declaration order.
pub open spec fn eval_projections<V>(names: Seq<Seq<char>>, record: Map<Seq<char>, V>) -> Seq<V> {
    names.map_values(|n: Seq<char>| record[n])
}

proof fn lemma_distinct_drop_last(names: Seq<Seq<char>>)
    requires
        distinct_names(names),
        names.len() > 0,
    ensures
        distinct_names(names.drop_last()),
{
    let pn = names.drop_last();
    assert forall|k: int, l: int| 0 <= k < l < pn.len() implies pn[k] != pn[l] by {
        assert(pn[k] == names[k]);
        assert(pn[l] == names[l]);
    }
}

proof fn lemma_record_of_index<V>(names: Seq<Seq<char>>, vals: Seq<V>, i: int)
    requires
        names.len() == vals.len(),
        distinct_names(names),
        0 <= i < names.len(),
    ensures
        record_of(names, vals).contains_key(names[i]),
        record_of(names, vals)[names[i]] == vals[i],
    decreases names.len(),
{
    if i < names.len() - 1 {
        let pn = names.drop_last();
        let pv = vals.drop_last();
        lemma_distinct_drop_last(names);
        lemma_record_of_index(pn, pv, i);
        assert(pn[i] == names[i]);
        assert(pv[i] == vals[i]);
        assert(names[i] != names.last());
    }
}

/// Round-trip identity of the consuming dissolve: for a record value with
/// distinct field names, dissolving yields the fields' values in declaration
/// order, and rebuilding a record from that tuple and dissolving again
/// yields the same tuple.
pub proof fn lemma_dissolve_round_trip<V>(names: Seq<Seq<char>>, vals: Seq<V>)
    requires
        names.len() == vals.len(),
        distinct_names(names),
    ensures
        eval_projections(names, record_of(names, vals)) == vals,
{
    let e = eval_projections(names, record_of(names, vals));
    assert forall|i: int| 0 <= i < names.len() implies e[i] == vals[i] by {
        lemma_record_of_index(names, vals, i);
    }
    assert(e =~= vals);
}

/// Mutation visibility of `dissolve_mut`: writing through the tuple's i-th
/// slot is a write of field `names[i]` — updating the slot and rebuilding
/// the record equals updating that field in the record.
pub proof fn lemma_dissolve_mut_write_visible<V>(
    names: Seq<Seq<char>>,
    vals: Seq<V>,
    i: int,
    v: V,
)
    requires
        names.len() == vals.len(),
        distinct_names(names),
        0 <= i < names.len(),
    ensures
        record_of(names, vals.update(i, v)) == record_of(names, vals).insert(names[i], v),
    decreases names.len(),
{
    let un = vals.update(i, v);
    let pn = names.drop_last();
    let pv = vals.drop_last();
    if i == names.len() - 1 {
        assert(un.drop_last() =~= pv);
        assert(un.last() == v);
        assert(record_of(pn, pv).insert(names.last(), vals.last()).insert(names.last(), v) =~= record_of(pn, pv).insert(names.last(), v));
        assert(record_of(names, un) =~= record_of(names, vals).insert(names[i], v));
    } else {
        lemma_distinct_drop_last(names);
        assert(un.drop_last() =~= pv.update(i, v));
        assert(un.last() == vals.last());
        lemma_dissolve_mut_write_visible(pn, pv, i, v);
        assert(pn[i] == names[i]);
        assert(names[i] != names.last());
        assert(record_of(pn, pv).insert(names[i], v).insert(names.last(), vals.last()) =~= record_of(pn, pv).insert(names.last(), vals.last()).insert(names[i], v));
        assert(record_of(names, un) =~= record_of(names, vals).insert(names[i], v));
    }
}

// ---------------------------------------------------------------------------
// The dissolve tuple mirrors the declaration
// ---------------------------------------------------------------------------

/// One slot per field, in declaration order, each with the field's own name
/// and declared type: nothing is dropped, duplicated or reordered.
pub proof fn lemma_dissolve_fields_mirror_declaration(
    fs: Seq<InputFieldV>,
    dfs: Seq<dissolve::FieldV>,
)
    requires
        dissolve::from_fields_spec(fs) == Ok::<Seq<dissolve::FieldV>, Problem>(dfs),
    ensures
        dfs.len() == fs.len(),
        forall|i: int| 0 <= i < fs.len() ==> fs[i].name == Some((#[trigger] dfs[i]).name),
        forall|i: int| 0 <= i < fs.len() ==> fs[i].ty == (#[trigger] dfs[i]).ty,
    decreases fs.len(),
{
    if fs.len() > 0 {
        let prefix = fs.drop_last();
        match dissolve::from_fields_spec(prefix) {
            Ok(done) => {
                lemma_dissolve_fields_mirror_declaration(prefix, done);
                match dissolve::from_field_spec(fs.last()) {
                    Ok(f) => {
                        assert(dfs == done.push(f));
                        assert forall|i: int| 0 <= i < fs.len() implies fs[i].name == Some(
                            (#[trigger] dfs[i]).name,
                        ) && fs[i].ty == dfs[i].ty by {
                            if i < fs.len() - 1 {
                                assert(prefix[i] == fs[i]);
                                assert(dfs[i] == done[i]);
                            } else {
                                assert(dfs[i] == f);
                                assert(fs[i] == fs.last());
                            }
                        }
                    },
                    Err(_) => {
                        assert(false);
                    },
                }
            },
            Err(_) => {
                assert(false);
            },
        }
    }
}

// ---------------------------------------------------------------------------
// Getter rendering laws
// ---------------------------------------------------------------------------

/// Reference non-duplication: a field whose declared type is already a
/// reference keeps exactly that type as the accessor's return type — never a
/// reference to a reference — and, when the reference carries an explicit
/// lifetime, `self` is borrowed for exactly that lifetime.  Every other
/// field is returned behind one fresh `&`.
pub proof fn lemma_getter_reference_not_redoubled(t: TyV)
    ensures
        t is Reference ==> getters::ret_text_spec(t) == ty_text_spec(t),
        t is Plain ==> getters::ret_text_spec(t) == "&"@ + ty_text_spec(t),
        forall|lt: Seq<char>, inner: Seq<char>|
            t == (TyV::Reference { lifetime: Some(lt), inner }) ==> getters::recv_text_spec(t)
                == "&'"@ + lt + " self"@,
        t is Plain ==> getters::recv_text_spec(t) == "&self"@,
{
}

// ---------------------------------------------------------------------------
// Provenance and completeness of the generated accessors
// ---------------------------------------------------------------------------

/// Every generated accessor comes from an input field that resolved to it.
pub proof fn lemma_getters_provenance(fs: Seq<InputFieldV>, gs: Seq<getters::FieldV>)
    requires
        getters::from_fields_spec(fs) == Ok::<Seq<getters::FieldV>, Problem>(gs),
    ensures
        forall|j: int|
            0 <= j < gs.len() ==> exists|k: int|
                0 <= k < fs.len() && getters::from_field_spec(fs[k]) == Ok::<
                    Option<getters::FieldV>,
                    Problem,
                >(Some(#[trigger] gs[j])),
    decreases fs.len(),
{
    if fs.len() > 0 {
        let prefix = fs.drop_last();
        match getters::from_fields_spec(prefix) {
            Ok(done) => {
                lemma_getters_provenance(prefix, done);
                match getters::from_field_spec(fs.last()) {
                    Ok(None) => {
                        assert(gs == done);
                        assert forall|j: int| 0 <= j < gs.len() implies exists|k: int|
                            0 <= k < fs.len() && getters::from_field_spec(fs[k]) == Ok::<
                                Option<getters::FieldV>,
                                Problem,
                            >(Some(#[trigger] gs[j])) by {
                            let k = choose|k: int|
                                0 <= k < prefix.len() && getters::from_field_spec(prefix[k])
                                    == Ok::<Option<getters::FieldV>, Problem>(Some(done[j]));
                            assert(prefix[k] == fs[k]);
                            assert(getters::from_field_spec(fs[k]) == Ok::<
                                Option<getters::FieldV>,
                                Problem,
                            >(Some(gs[j])));
                        }
                    },
                    Ok(Some(g)) => {
                        assert(gs == done.push(g));
                        assert forall|j: int| 0 <= j < gs.len() implies exists|k: int|
                            0 <= k < fs.len() && getters::from_field_spec(fs[k]) == Ok::<
                                Option<getters::FieldV>,
                                Problem,
                            >(Some(#[trigger] gs[j])) by {
                            if j < done.len() {
                                assert(gs[j] == done[j]);
                                let k = choose|k: int|
                                    0 <= k < prefix.len() && getters::from_field_spec(prefix[k])
                                        == Ok::<Option<getters::FieldV>, Problem>(Some(done[j]));
                                assert(prefix[k] == fs[k]);
                                assert(getters::from_field_spec(fs[k]) == Ok::<
                                    Option<getters::FieldV>,
                                    Problem,
                                >(Some(gs[j])));
                            } else {
                                assert(gs[j] == g);
                                assert(fs[fs.len() - 1] == fs.last());
                                assert(getters::from_field_spec(fs[fs.len() - 1]) == Ok::<
                                    Option<getters::FieldV>,
                                    Problem,
                                >(Some(gs[j])));
                            }
                        }
                    },
                    Err(_) => {
                        assert(false);
                    },
                }
            },
            Err(_) => {
                assert(false);
            },
        }
    }
}

/// Every input field that resolves to an accessor appears among the
/// generated accessors.
pub proof fn lemma_getters_complete(
    fs: Seq<InputFieldV>,
    gs: Seq<getters::FieldV>,
    k: int,
    g: getters::FieldV,
)
    requires
        getters::from_fields_spec(fs) == Ok::<Seq<getters::FieldV>, Problem>(gs),
        0 <= k < fs.len(),
        getters::from_field_spec(fs[k]) == Ok::<Option<getters::FieldV>, Problem>(Some(g)),
    ensures
        gs.contains(g),
    decreases fs.len(),
{
    let prefix = fs.drop_last();
    match getters::from_fields_spec(prefix) {
        Ok(done) => {
            match getters::from_field_spec(fs.last()) {
                Ok(None) => {
                    assert(gs == done);
                    if k == fs.len() - 1 {
                        assert(false);
                    } else {
                        assert(prefix[k] == fs[k]);
                        lemma_getters_complete(prefix, done, k, g);
                    }
                },
                Ok(Some(h)) => {
                    assert(gs == done.push(h));
                    if k == fs.len() - 1 {
                        assert(h == g);
                        assert(gs[gs.len() - 1] == g);
                        assert(gs.contains(g));
                    } else {
                        assert(prefix[k] == fs[k]);
                        lemma_getters_complete(prefix, done, k, g);
                        let j = choose|j: int| 0 <= j < done.len() && done[j] == g;
                        assert(gs[j] == g);
                        assert(gs.contains(g));
                    }
                },
                Err(_) => {
                    assert(false);
                },
            }
        },
        Err(_) => {
            assert(false);
        },
    }
}

// ---------------------------------------------------------------------------
// Skip exclusion and rename override
// ---------------------------------------------------------------------------

/// Skip exclusion: a field whose `getter` directive resolved to `skip`
/// contributes no accessor — no generated method projects a field of its
/// name — provided the record's field names are distinct, as the host
/// language already guarantees.  All other fields still produce accessors
/// ([`lemma_getters_complete`]).
pub proof fn lemma_skip_excludes_field(
    fs: Seq<InputFieldV>,
    gs: Seq<getters::FieldV>,
    i: int,
    n: Seq<char>,
)
    requires
        getters::from_fields_spec(fs) == Ok::<Seq<getters::FieldV>, Problem>(gs),
        0 <= i < fs.len(),
        fs[i].name == Some(n),
        get_action_spec(fs[i].attrs, "getter"@) == Ok::<Option<ActionV>, Problem>(
            Some(ActionV::Skip),
        ),
        forall|k: int, l: int| 0 <= k < l < fs.len() ==> fs[k].name != fs[l].name,
    ensures
        forall|j: int| 0 <= j < gs.len() ==> (#[trigger] gs[j]).name != n,
{
    lemma_getters_provenance(fs, gs);
    assert forall|j: int| 0 <= j < gs.len() implies (#[trigger] gs[j]).name != n by {
        let k = choose|k: int|
            0 <= k < fs.len() && getters::from_field_spec(fs[k]) == Ok::<
                Option<getters::FieldV>,
                Problem,
            >(Some(gs[j]));
        assert(fs[k].name == Some(gs[j].name));
        if gs[j].name == n {
            assert(fs[k].name == fs[i].name);
            assert(k == i);
            assert(getters::from_field_spec(fs[i]) == Ok::<Option<getters::FieldV>, Problem>(
                None,
            ));
            assert(false);
        }
    }
}

/// Rename override for getters: a field whose directive resolved to
/// `rename = x` yields an accessor named `x` for it, and no accessor bears
/// the field's own name, provided no other field's resolution produces one.
pub proof fn lemma_rename_overrides_getter(
    fs: Seq<InputFieldV>,
    gs: Seq<getters::FieldV>,
    i: int,
    n: Seq<char>,
    x: Seq<char>,
)
    requires
        getters::from_fields_spec(fs) == Ok::<Seq<getters::FieldV>, Problem>(gs),
        0 <= i < fs.len(),
        fs[i].name == Some(n),
        get_action_spec(fs[i].attrs, "getter"@) == Ok::<Option<ActionV>, Problem>(
            Some(ActionV::Rename(x)),
        ),
        x != n,
        forall|k: int, g: getters::FieldV|
            0 <= k < fs.len() && k != i && getters::from_field_spec(fs[k]) == Ok::<
                Option<getters::FieldV>,
                Problem,
            >(Some(g)) ==> g.getter != n,
    ensures
        gs.contains(getters::FieldV { ty: fs[i].ty, name: n, getter: x }),
        forall|j: int| 0 <= j < gs.len() ==> (#[trigger] gs[j]).getter != n,
{
    let renamed = getters::FieldV { ty: fs[i].ty, name: n, getter: x };
    assert(getters::from_field_spec(fs[i]) == Ok::<Option<getters::FieldV>, Problem>(
        Some(renamed),
    ));
    lemma_getters_complete(fs, gs, i, renamed);
    lemma_getters_provenance(fs, gs);
    assert forall|j: int| 0 <= j < gs.len() implies (#[trigger] gs[j]).getter != n by {
        let k = choose|k: int|
            0 <= k < fs.len() && getters::from_field_spec(fs[k]) == Ok::<
                Option<getters::FieldV>,
                Problem,
            >(Some(gs[j]));
        if k == i {
            assert(gs[j] == renamed);
        }
    }
}

/// Rename override for the dissolve family: a directive resolved to
/// `rename = x` names the flavor's one generated method `x`, and the default
/// name is then absent from the generated code.
pub proof fn lemma_rename_overrides_dissolve(
    d: TypeDeclV,
    fl: dissolve::Flavor,
    fs: Seq<InputFieldV>,
    ns: dissolve::NamedStructV,
    x: Seq<char>,
)
    requires
        named_struct_spec(d) matches Ok(sd) && named_fields_spec(sd) == Ok::<
            Seq<InputFieldV>,
            Problem,
        >(fs),
        dissolve::flavor_action_spec(d, fs, dissolve::namespace_spec(fl)) == Ok::<
            Option<ActionV>,
            Problem,
        >(Some(ActionV::Rename(x))),
        dissolve::try_from_spec(d, fl) == Ok::<dissolve::NamedStructV, Problem>(ns),
    ensures
        ns.method_name == x,
        x != dissolve::namespace_spec(fl) ==> ns.method_name != dissolve::namespace_spec(fl),
{
}

} // verus!
