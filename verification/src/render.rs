//! Rendering pipeline stage entries into concrete stages.
//!
//! A plain entry is copied through under its own name. A repeated entry is
//! instantiated once per label: the templated definition is interpolated
//! against the one-variable context `item -> label` and inserted under the
//! key `<name>@<label>`. When two entries produce the same key, the later
//! one silently wins, keeping last-write-wins map semantics.
use vstd::prelude::*;
use vstd::pervasive::VecAdditionalExecFns;
use vstd::string::StringExecFns;
use crate::DVCError;
use crate::interpolate::{InterpContext, map_of, pairs_view};
use crate::schemas::pipeline::{PipelineStage, PipelineStageV, StageEntry, StageEntryV,
    stage_entries_view, strings_view, spec_interp_stage, stage_templates_clean};
use crate::text::str_eq;

verus! {

/// The views of a sequence of named concrete stages.
pub open spec fn expanded_stages_view(s: Seq<(String, PipelineStage)>) -> Seq<
    (Seq<char>, PipelineStageV),
> {
    Seq::new(s.len(), |i: int| (s[i].0@, s[i].1@))
}

/// The index of the first entry carrying the key, or a negative value when
/// no entry does.
pub open spec fn find_key(m: Seq<(Seq<char>, PipelineStageV)>, k: Seq<char>) -> int
    decreases m,
{
    if m.len() == 0 {
        -1
    } else if m[0].0 == k {
        0
    } else {
        let r = find_key(m.drop_first(), k);
        if r < 0 {
            -1
        } else {
            r + 1
        }
    }
}

/// The characterization of [`find_key`]: it is the first index carrying
/// the key, or negative when the key is absent.
proof fn lemma_find_key(m: Seq<(Seq<char>, PipelineStageV)>, k: Seq<char>)
    ensures
        find_key(m, k) < 0 ==> forall|j: int| 0 <= j < m.len() ==> m[j].0 != k,
        find_key(m, k) >= 0 ==> 0 <= find_key(m, k) < m.len() && m[find_key(m, k)].0 == k
            && forall|j: int| 0 <= j < find_key(m, k) ==> m[j].0 != k,
    decreases m,
{
    if m.len() > 0 && m[0].0 != k {
        lemma_find_key(m.drop_first(), k);
        let t = m.drop_first();
        let r = find_key(t, k);
        if r < 0 {
            assert forall|j: int| 0 <= j < m.len() implies m[j].0 != k by {
                if j > 0 {
                    assert(t[j - 1] == m[j]);
                    assert(t[j - 1].0 != k);
                }
            }
        } else {
            assert(m[r + 1] == t[r]);
            assert forall|j: int| 0 <= j < r + 1 implies m[j].0 != k by {
                if j > 0 {
                    assert(t[j - 1] == m[j]);
                    assert(t[j - 1].0 != k);
                }
            }
        }
    }
}

/// Inserting under a key: the first entry carrying the key is replaced,
/// and a fresh key is appended at the end.
pub open spec fn spec_upsert(
    m: Seq<(Seq<char>, PipelineStageV)>,
    k: Seq<char>,
    v: PipelineStageV,
) -> Seq<(Seq<char>, PipelineStageV)> {
    if find_key(m, k) < 0 {
        m.push((k, v))
    } else {
        m.update(find_key(m, k), (k, v))
    }
}

/// Insert a concrete stage under a key, replacing the entry already
/// carrying that key if there is one.
fn upsert_stage(m: &mut Vec<(String, PipelineStage)>, k: String, v: PipelineStage)
    ensures
        expanded_stages_view(final(m)@) == spec_upsert(expanded_stages_view(old(m)@), k@, v@),
{
    let ghost mv = expanded_stages_view(m@);
    proof {
        lemma_find_key(mv, k@);
    }
    let n = m.len();
    let mut i: usize = 0;
    while i < n
        invariant
            n == m@.len(),
            i <= n,
            m@ == old(m)@,
            mv == expanded_stages_view(m@),
            mv.len() == n,
            forall|j: int| 0 <= j < i ==> mv[j].0 != k@,
        decreases n - i,
    {
        if str_eq(m[i].0.as_str(), k.as_str()) {
            proof {
                lemma_find_key(mv, k@);
                let r = find_key(mv, k@);
                assert(mv[i as int].0 == k@);
                if r < 0 {
                    assert(mv[i as int].0 != k@);
                }
                if 0 <= r < i as int {
                    assert(mv[r].0 != k@);
                }
                if r > i as int {
                    assert(mv[i as int].0 != k@);
                }
                assert(find_key(mv, k@) == i as int);
            }
            m.set(i, (k, v));
            proof {
                assert(expanded_stages_view(m@) =~= mv.update(i as int, (k@, v@)));
            }
            return ;
        }
        i = i + 1;
    }
    proof {
        lemma_find_key(mv, k@);
        assert(find_key(mv, k@) < 0);
    }
    let ghost prev = m@;
    m.push((k, v));
    proof {
        assert(expanded_stages_view(m@) =~= expanded_stages_view(prev).push((k@, v@)));
    }
}

/// Build the expanded key `<name>@<label>` for one instance of a repeated
/// stage.
pub fn expanded_key(name: &str, label: &str) -> (r: String)
    ensures
        r@ == name@ + "@"@ + label@,
{
    let mut key = String::from_str(name);
    key.append("@");
    key.append(label);
    key
}

/// What instantiating a repeated stage over its labels, in declared order,
/// adds to an accumulated stage mapping; nothing as soon as one label's
/// substitution fails.
pub open spec fn spec_expand_labels(
    acc: Seq<(Seq<char>, PipelineStageV)>,
    name: Seq<char>,
    labels: Seq<Seq<char>>,
    stage: PipelineStageV,
) -> Option<Seq<(Seq<char>, PipelineStageV)>>
    decreases labels,
{
    if labels.len() == 0 {
        Some(acc)
    } else {
        match spec_expand_labels(acc, name, labels.drop_last(), stage) {
            Some(acc2) => {
                let vars = Map::<Seq<char>, Seq<char>>::empty().insert("item"@, labels.last());
                match spec_interp_stage(stage, vars) {
                    Some(st) => Some(spec_upsert(acc2, name + "@"@ + labels.last(), st)),
                    None => None,
                }
            },
            None => None,
        }
    }
}

/// What one stage entry adds to an accumulated stage mapping.
pub open spec fn spec_expand_entry(
    acc: Seq<(Seq<char>, PipelineStageV)>,
    name: Seq<char>,
    entry: StageEntryV,
) -> Option<Seq<(Seq<char>, PipelineStageV)>> {
    match entry {
        StageEntryV::SingleStage(st) => Some(spec_upsert(acc, name, st)),
        StageEntryV::MultiStage { foreach, stage } => spec_expand_labels(
            acc,
            name,
            foreach,
            stage,
        ),
    }
}

/// What a whole stage-entry mapping expands to: each entry applied in
/// order; nothing as soon as one substitution fails.
pub open spec fn spec_expand(entries: Seq<(Seq<char>, StageEntryV)>) -> Option<
    Seq<(Seq<char>, PipelineStageV)>,
>
    decreases entries,
{
    if entries.len() == 0 {
        Some(Seq::empty())
    } else {
        match spec_expand(entries.drop_last()) {
            Some(acc) => spec_expand_entry(acc, entries.last().0, entries.last().1),
            None => None,
        }
    }
}

/// Once one label of the repeated stage fails to render, the whole
/// instantiation fails.
proof fn lemma_expand_labels_prefix_none(
    acc: Seq<(Seq<char>, PipelineStageV)>,
    name: Seq<char>,
    labels: Seq<Seq<char>>,
    stage: PipelineStageV,
    j: int,
)
    requires
        0 <= j <= labels.len(),
        spec_expand_labels(acc, name, labels.take(j), stage) is None,
    ensures
        spec_expand_labels(acc, name, labels, stage) is None,
    decreases labels.len(),
{
    if j < labels.len() {
        assert(labels.drop_last().take(j) =~= labels.take(j));
        lemma_expand_labels_prefix_none(acc, name, labels.drop_last(), stage, j);
    } else {
        assert(labels.take(j) =~= labels);
    }
}

/// Once one entry of the mapping fails to expand, the whole expansion
/// fails.
proof fn lemma_expand_prefix_none(entries: Seq<(Seq<char>, StageEntryV)>, j: int)
    requires
        0 <= j <= entries.len(),
        spec_expand(entries.take(j)) is None,
    ensures
        spec_expand(entries) is None,
    decreases entries.len(),
{
    if j < entries.len() {
        assert(entries.drop_last().take(j) =~= entries.take(j));
        lemma_expand_prefix_none(entries.drop_last(), j);
    } else {
        assert(entries.take(j) =~= entries);
    }
}

/// Every templated string of a stage entry has only ASCII whitespace at
/// its placeholder edges; a plain entry has no templates.
pub open spec fn entry_templates_clean(entry: StageEntryV) -> bool {
    match entry {
        StageEntryV::SingleStage(_) => true,
        StageEntryV::MultiStage { foreach, stage } => stage_templates_clean(stage),
    }
}

/// Every templated string of the stage-entry mapping has only ASCII
/// whitespace at its placeholder edges.
pub open spec fn entries_templates_clean(entries: Seq<(Seq<char>, StageEntryV)>) -> bool {
    forall|i: int| 0 <= i < entries.len() ==> entry_templates_clean((#[trigger] entries[i]).1)
}

/// Resolve a pipeline's declared stage entries into a flat mapping of
/// concrete stage name to concrete stage definition.
pub fn expand_entries(specs: &Vec<(String, StageEntry)>) -> (r: Result<
    Vec<(String, PipelineStage)>,
    DVCError,
>)
    ensures
        r is Ok <==> spec_expand(stage_entries_view(specs@)) is Some,
        r matches Ok(v) ==> Some(expanded_stages_view(v@)) == spec_expand(
            stage_entries_view(specs@),
        ),
        r matches Err(e) ==> (e is UndefinedVariable || e is DecodeFailure) && (
        entries_templates_clean(stage_entries_view(specs@)) ==> e is UndefinedVariable),
{
    let ghost ev = stage_entries_view(specs@);
    proof {
        assert(ev.take(0) =~= Seq::<(Seq<char>, StageEntryV)>::empty());
    }
    let mut out: Vec<(String, PipelineStage)> = Vec::new();
    proof {
        assert(expanded_stages_view(out@) =~= Seq::<(Seq<char>, PipelineStageV)>::empty());
    }
    let n = specs.len();
    let mut i: usize = 0;
    while i < n
        invariant
            n == specs@.len(),
            i <= n,
            ev == stage_entries_view(specs@),
            ev.len() == n,
            spec_expand(ev.take(i as int)) == Some(expanded_stages_view(out@)),
        decreases n - i,
    {
        proof {
            assert(ev.take(i + 1).drop_last() =~= ev.take(i as int));
            assert(ev.take(i + 1).last() == ev[i as int]);
            assert(ev[i as int] == (specs@[i as int].0@, specs@[i as int].1@));
        }
        let ghost acc0 = expanded_stages_view(out@);
        let name = &specs[i].0;
        match &specs[i].1 {
            StageEntry::SingleStage(stage) => {
                upsert_stage(&mut out, name.clone(), stage.clone());
            },
            StageEntry::MultiStage { foreach, stage } => {
                let ghost labels_v = strings_view(foreach@);
                proof {
                    assert(labels_v.take(0) =~= Seq::<Seq<char>>::empty());
                }
                let ln = foreach.len();
                let mut j: usize = 0;
                while j < ln
                    invariant
                        ln == foreach@.len(),
                        j <= ln,
                        labels_v == strings_view(foreach@),
                        labels_v.len() == ln,
                        ev == stage_entries_view(specs@),
                        ev.len() == n,
                        i < n,
                        ev[i as int] == (specs@[i as int].0@, specs@[i as int].1@),
                        name@ == specs@[i as int].0@,
                        specs@[i as int].1@ == (StageEntryV::MultiStage {
                            foreach: labels_v,
                            stage: stage@,
                        }),
                        spec_expand(ev.take(i as int)) == Some(acc0),
                        spec_expand_labels(acc0, name@, labels_v.take(j as int), stage@) == Some(
                            expanded_stages_view(out@),
                        ),
                    decreases ln - j,
                {
                    proof {
                        assert(labels_v.take(j + 1).drop_last() =~= labels_v.take(j as int));
                        assert(labels_v.take(j + 1).last() == labels_v[j as int]);
                        assert(labels_v[j as int] == foreach@[j as int]@);
                    }
                    let label = &foreach[j];
                    let key = expanded_key(name.as_str(), label.as_str());
                    let mut kv: Vec<(String, String)> = Vec::new();
                    kv.push((String::from_str("item"), label.clone()));
                    let ghost kvv = kv@;
                    let ctx = InterpContext::create(kv);
                    proof {
                        let single: Seq<(Seq<char>, Seq<char>)> = seq![("item"@, label@)];
                        assert(pairs_view(kvv) =~= single);
                        assert(single.drop_last() =~= Seq::<(Seq<char>, Seq<char>)>::empty());
                        assert(map_of(Seq::<(Seq<char>, Seq<char>)>::empty())
                            == Map::<Seq<char>, Seq<char>>::empty());
                        assert(map_of(single) == Map::<Seq<char>, Seq<char>>::empty().insert(
                            "item"@,
                            label@,
                        ));
                        assert(ctx.vars_map() == Map::<Seq<char>, Seq<char>>::empty().insert(
                            "item"@,
                            labels_v[j as int],
                        ));
                    }
                    match stage.interpolate(&ctx) {
                        Ok(st) => {
                            upsert_stage(&mut out, key, st);
                        },
                        Err(e) => {
                            proof {
                                assert(entries_templates_clean(ev) ==> stage_templates_clean(
                                    stage@,
                                )) by {
                                    if entries_templates_clean(ev) {
                                        assert(entry_templates_clean(ev[i as int].1));
                                    }
                                }
                                assert(spec_expand_labels(
                                    acc0,
                                    name@,
                                    labels_v.take(j + 1),
                                    stage@,
                                ) is None);
                                lemma_expand_labels_prefix_none(
                                    acc0,
                                    name@,
                                    labels_v,
                                    stage@,
                                    j + 1,
                                );
                                assert(ev.take(i + 1).drop_last() =~= ev.take(i as int));
                                assert(ev.take(i + 1).last() == ev[i as int]);
                                assert(spec_expand(ev.take(i + 1)) is None);
                                lemma_expand_prefix_none(ev, i + 1);
                            }
                            return Err(e);
                        },
                    }
                    j = j + 1;
                }
                proof {
                    assert(labels_v.take(ln as int) =~= labels_v);
                }
            },
        }
        i = i + 1;
    }
    proof {
        assert(ev.take(n as int) =~= ev);
    }
    Ok(out)
}

} // verus!
