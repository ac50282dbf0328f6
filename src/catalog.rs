//! Decoding the catalog's entity index and joining the per-entity fetches into one map.
use std::collections::HashMap;

use vstd::prelude::*;

use crate::champion::Champion;
use crate::plugin::PluginName;
use crate::sync::CDragon;

verus! {

broadcast use vstd::std_specs::hash::group_hash_axioms;

/// How a single request to the catalog failed.
#[derive(Clone, Copy, Debug, PartialEq, Eq, Structural)]
pub enum ErrorKind {
    /// The transport failed.
    Network,
    /// The resource is absent remotely or in the cache.
    NotFound,
    /// The payload does not have the expected shape.
    Decode,
}

/// A failure of the catalog client, with what it was about.
#[derive(Clone, Copy, Debug, PartialEq, Eq, Structural)]
pub enum CatalogError {
    /// A plugin list, index or cache request failed.
    Fetch(ErrorKind),
    /// The first failing entity fetch of a fan-out, with the id it asked for.
    Entity { id: u64, kind: ErrorKind },
    /// The plugin list holds no plugin of this name.
    MissingPlugin(PluginName),
}

/// The text read as a JSON array, with each element's unsigned-integer member `key` (`None`
/// where an element has none); `None` where the text is no JSON array.
pub uninterp spec fn json_array_u64_members(text: Seq<char>, key: Seq<char>) -> Option<
    Seq<Option<u64>>,
>;

/// Relies on `serde_json::from_str` into `Vec<serde_json::Value>`, then `Value::get(key)` and
/// `Value::as_u64` on each element; the result depends on `text` and `key` alone.
#[verifier::external_body]
fn u64_members(text: &str, key: &str) -> (r: Option<Vec<Option<u64>>>)
    ensures
        match r {
            Some(fields) => json_array_u64_members(text@, key@) == Some(fields@),
            None => json_array_u64_members(text@, key@) is None,
        },
{
    serde_json::from_str::<Vec<serde_json::Value>>(text).ok().map(
        |vs| vs.iter().map(|v| v.get(key).and_then(serde_json::Value::as_u64)).collect(),
    )
}

/// The index's entries after the leading sentinel all carry an id.
pub open spec fn ids_present(fields: Seq<Option<u64>>) -> bool {
    forall|i: int| 1 <= i < fields.len() ==> (#[trigger] fields[i]) is Some
}

/// The ids of the index's entries, the leading sentinel left out.
pub open spec fn ids_after_sentinel(fields: Seq<Option<u64>>) -> Seq<u64> {
    if fields.len() == 0 {
        Seq::empty()
    } else {
        fields.subrange(1, fields.len() as int).map_values(|f: Option<u64>| f->0)
    }
}

/// The entity ids of the index, given each entry's `id` field (`None` where it has no
/// numeric one). The first entry is a placeholder and is skipped whatever it holds; any
/// other entry without an id makes the index undecodable.
pub fn entity_ids(fields: &Vec<Option<u64>>) -> (r: Result<Vec<u64>, CatalogError>)
    ensures
        ids_present(fields@) ==> (r matches Ok(ids) && ids@ == ids_after_sentinel(fields@)),
        !ids_present(fields@) ==> r == Err::<Vec<u64>, CatalogError>(
            CatalogError::Fetch(ErrorKind::Decode),
        ),
{
    let mut ids: Vec<u64> = Vec::new();
    let mut i: usize = 1;
    while i < fields.len()
        invariant
            1 <= i,
            fields@.len() == 0 ==> ids@.len() == 0,
            fields@.len() > 0 ==> i <= fields@.len(),
            fields@.len() > 0 ==> ids@ == fields@.subrange(1, i as int).map_values(
                |f: Option<u64>| f->0,
            ),
            forall|j: int| 1 <= j < i && j < fields@.len() ==> (#[trigger] fields@[j]) is Some,
        decreases fields.len() - i,
    {
        match fields[i] {
            Some(id) => {
                ids.push(id);
                assert(fields@.subrange(1, i + 1).map_values(|f: Option<u64>| f->0)
                    =~= fields@.subrange(1, i as int).map_values(|f: Option<u64>| f->0).push(id));
            },
            None => {
                return Err(CatalogError::Fetch(ErrorKind::Decode));
            },
        }
        i = i + 1;
    }
    if fields.len() == 0 {
        assert(ids@ =~= Seq::<u64>::empty());
    }
    Ok(ids)
}

} // verus!

verus! {

/// One joined entity fetch: the id that was asked for, and what came back.
pub type Fetched = (u64, Result<Champion, ErrorKind>);

/// The failure of the earliest fetch in join order that failed, if any did.
pub open spec fn first_failure(fetched: Seq<Fetched>) -> Option<CatalogError>
    decreases fetched.len(),
{
    if fetched.len() == 0 {
        None
    } else {
        match fetched[0].1 {
            Err(kind) => Some(CatalogError::Entity { id: fetched[0].0, kind }),
            Ok(_) => first_failure(fetched.drop_first()),
        }
    }
}

/// The fetched records keyed by their own id; where two share an id the later one stays.
pub open spec fn champion_map(fetched: Seq<Fetched>) -> Map<u64, Champion>
    decreases fetched.len(),
{
    if fetched.len() == 0 {
        Map::empty()
    } else {
        let rest = champion_map(fetched.drop_last());
        match fetched.last().1 {
            Ok(c) => rest.insert(c.id, c),
            Err(_) => rest,
        }
    }
}

/// The outcome of joining a fan-out: the first failure, or the map of every record.
pub open spec fn fan_in(fetched: Seq<Fetched>) -> Result<Map<u64, Champion>, CatalogError> {
    match first_failure(fetched) {
        Some(e) => Err(e),
        None => Ok(champion_map(fetched)),
    }
}

/// The ids that a fan-out asked for, in order.
pub open spec fn requested_ids(fetched: Seq<Fetched>) -> Seq<u64> {
    fetched.map_values(|f: Fetched| f.0)
}

proof fn lemma_first_failure_after_clean_prefix(fetched: Seq<Fetched>, i: int)
    requires
        0 <= i <= fetched.len(),
        first_failure(fetched.subrange(0, i)) is None,
    ensures
        first_failure(fetched) == first_failure(fetched.subrange(i, fetched.len() as int)),
    decreases i,
{
    if i > 0 {
        let prefix = fetched.subrange(0, i);
        assert(prefix[0] == fetched[0]);
        assert(prefix.drop_first() =~= fetched.drop_first().subrange(0, i - 1));
        lemma_first_failure_after_clean_prefix(fetched.drop_first(), i - 1);
        assert(fetched.drop_first().subrange(i - 1, fetched.len() - 1) =~= fetched.subrange(
            i,
            fetched.len() as int,
        ));
    } else {
        assert(fetched.subrange(0, fetched.len() as int) =~= fetched);
    }
}

proof fn lemma_first_failure_extend(fetched: Seq<Fetched>, i: int)
    requires
        0 <= i < fetched.len(),
        first_failure(fetched.subrange(0, i)) is None,
        fetched[i].1 is Ok,
    ensures
        first_failure(fetched.subrange(0, i + 1)) is None,
{
    let next = fetched.subrange(0, i + 1);
    assert(next.subrange(0, i) =~= fetched.subrange(0, i));
    lemma_first_failure_after_clean_prefix(next, i);
    let tail = next.subrange(i, i + 1);
    assert(tail[0] == fetched[i]);
    assert(tail.drop_first() =~= Seq::<Fetched>::empty());
    assert(first_failure(tail.drop_first()) is None);
}

impl CDragon {
    /// The entity ids listed by the catalog's summary index, a JSON array whose first
    /// element is a placeholder. Text that is no JSON array, or an entry after the first
    /// without a numeric `id`, is a decode error.
    pub fn champion_ids(summary: &str) -> (r: Result<Vec<u64>, CatalogError>)
        ensures
            match json_array_u64_members(summary@, "id"@) {
                None => r == Err::<Vec<u64>, CatalogError>(CatalogError::Fetch(ErrorKind::Decode)),
                Some(fields) => {
                    &&& ids_present(fields) ==> (r matches Ok(ids) && ids@ == ids_after_sentinel(
                        fields,
                    ))
                    &&& !ids_present(fields) ==> r == Err::<Vec<u64>, CatalogError>(
                        CatalogError::Fetch(ErrorKind::Decode),
                    )
                },
            },
    {
        match u64_members(summary, "id") {
            None => Err(CatalogError::Fetch(ErrorKind::Decode)),
            Some(fields) => entity_ids(&fields),
        }
    }

    /// Joins the results of a concurrent fan-out, in join order. The first failure met fails
    /// the whole join, and no partial map is returned; otherwise every record is in the map
    /// under its own id.
    pub fn all_champions(fetched: Vec<Fetched>) -> (r: Result<HashMap<u64, Champion>, CatalogError>)
        ensures
            match r {
                Ok(m) => fan_in(fetched@) == Ok::<Map<u64, Champion>, CatalogError>(m@),
                Err(e) => fan_in(fetched@) == Err::<Map<u64, Champion>, CatalogError>(e),
            },
    {
        let ghost all = fetched@;
        let n = fetched.len();
        let mut rest = fetched;
        let mut reversed: Vec<Fetched> = Vec::new();
        while rest.len() > 0
            invariant
                rest@.len() + reversed@.len() == n,
                n == all.len(),
                all == fetched@,
                rest@ == all.subrange(0, rest@.len() as int),
                forall|j: int| 0 <= j < reversed@.len() ==> #[trigger] reversed@[j] == all[n - 1 - j],
            decreases rest.len(),
        {
            let item = rest.pop().unwrap();
            reversed.push(item);
        }
        let mut champions: HashMap<u64, Champion> = HashMap::new();
        let mut i: usize = 0;
        while i < n
            invariant
                i <= n,
                n == all.len(),
                all == fetched@,
                reversed@.len() == n - i,
                forall|j: int| 0 <= j < reversed@.len() ==> #[trigger] reversed@[j] == all[n - 1 - j],
                first_failure(all.subrange(0, i as int)) is None,
                champions@ == champion_map(all.subrange(0, i as int)),
            decreases n - i,
        {
            let (id, result) = reversed.pop().unwrap();
            assert(all[i as int] == (id, result));
            match result {
                Err(kind) => {
                    proof {
                        lemma_first_failure_after_clean_prefix(all, i as int);
                        let tail = all.subrange(i as int, n as int);
                        assert(tail[0] == all[i as int]);
                        assert(first_failure(tail) == Some(CatalogError::Entity { id, kind }));
                    }
                    return Err(CatalogError::Entity { id, kind });
                },
                Ok(champion) => {
                    proof {
                        lemma_first_failure_extend(all, i as int);
                        assert(all.subrange(0, i + 1).drop_last() =~= all.subrange(0, i as int));
                    }
                    champions.insert(champion.id, champion);
                },
            }
            i = i + 1;
        }
        assert(all.subrange(0, n as int) =~= all);
        Ok(champions)
    }
}

/// The fetch succeeded with the record of the id that it asked for.
pub open spec fn answers_request(f: Fetched) -> bool {
    f.1 matches Ok(c) && c.id == f.0
}

proof fn lemma_no_failure_when_all_ok(fetched: Seq<Fetched>)
    requires
        forall|i: int| 0 <= i < fetched.len() ==> (#[trigger] fetched[i]).1 is Ok,
    ensures
        first_failure(fetched) is None,
    decreases fetched.len(),
{
    if fetched.len() > 0 {
        let rest = fetched.drop_first();
        assert forall|i: int| 0 <= i < rest.len() implies (#[trigger] rest[i]).1 is Ok by {
            assert(rest[i] == fetched[i + 1]);
        }
        lemma_no_failure_when_all_ok(rest);
    }
}

proof fn lemma_champion_map_keys(fetched: Seq<Fetched>)
    requires
        forall|i: int| 0 <= i < fetched.len() ==> answers_request(#[trigger] fetched[i]),
    ensures
        champion_map(fetched).dom() == requested_ids(fetched).to_set(),
    decreases fetched.len(),
{
    if fetched.len() > 0 {
        let rest = fetched.drop_last();
        assert forall|i: int| 0 <= i < rest.len() implies answers_request(#[trigger] rest[i]) by {
            assert(rest[i] == fetched[i]);
        }
        lemma_champion_map_keys(rest);
        let ids = requested_ids(fetched);
        assert(requested_ids(rest) =~= ids.drop_last());
        let last = fetched.last();
        assert(ids.last() == last.0);
        assert(champion_map(fetched).dom() =~= ids.to_set()) by {
            assert forall|k: u64| #[trigger] ids.to_set().contains(k) implies champion_map(
                fetched,
            ).dom().contains(k) by {
                let i = choose|i: int| 0 <= i < ids.len() && ids[i] == k;
                if i < ids.len() - 1 {
                    assert(ids.drop_last()[i] == k);
                    assert(ids.drop_last().to_set().contains(k));
                }
            }
            assert forall|k: u64| #[trigger] champion_map(fetched).dom().contains(k) implies ids.to_set().contains(
                k,
            ) by {
                if k != last.0 {
                    assert(ids.drop_last().to_set().contains(k));
                    let i = choose|i: int| 0 <= i < ids.drop_last().len() && ids.drop_last()[i] == k;
                    assert(ids[i] == k);
                } else {
                    assert(ids[ids.len() - 1] == k);
                }
            }
        }
    } else {
        assert(requested_ids(fetched).to_set() =~= Set::<u64>::empty());
    }
}

/// When every fetch of a fan-out over distinct ids succeeds with the record of the id it
/// asked for, the join succeeds with a map whose keys are exactly those ids, one per fetch.
pub proof fn lemma_join_all_succeed(fetched: Seq<Fetched>)
    requires
        forall|i: int| 0 <= i < fetched.len() ==> answers_request(#[trigger] fetched[i]),
        requested_ids(fetched).no_duplicates(),
    ensures
        fan_in(fetched) is Ok,
        fan_in(fetched)->Ok_0.dom() == requested_ids(fetched).to_set(),
        fan_in(fetched)->Ok_0.dom().len() == fetched.len(),
{
    lemma_no_failure_when_all_ok(fetched);
    lemma_champion_map_keys(fetched);
    requested_ids(fetched).unique_seq_to_set();
}

/// When exactly one fetch of a fan-out fails, the whole join fails with that fetch's error,
/// and no map is returned.
pub proof fn lemma_join_one_failure(fetched: Seq<Fetched>, j: int)
    requires
        0 <= j < fetched.len(),
        fetched[j].1 is Err,
        forall|i: int| 0 <= i < fetched.len() && i != j ==> (#[trigger] fetched[i]).1 is Ok,
    ensures
        fan_in(fetched) == Err::<Map<u64, Champion>, CatalogError>(
            CatalogError::Entity { id: fetched[j].0, kind: fetched[j].1->Err_0 },
        ),
{
    let prefix = fetched.subrange(0, j);
    assert forall|i: int| 0 <= i < prefix.len() implies (#[trigger] prefix[i]).1 is Ok by {
        assert(prefix[i] == fetched[i]);
    }
    lemma_no_failure_when_all_ok(prefix);
    lemma_first_failure_after_clean_prefix(fetched, j);
    let tail = fetched.subrange(j, fetched.len() as int);
    assert(tail[0] == fetched[j]);
}

} // verus!
