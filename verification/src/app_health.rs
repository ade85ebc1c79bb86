//! The health map: the status of every installed application, by identifier.

use crate::application::{
    ids_of, models, ApplicationDescriptor, ApplicationStatus, DescriptorModel, StatusModel,
};
use crate::error::Error;
use crate::text::{position_of, texts};
use vstd::prelude::*;

verus! {

/// The map that holds, for each identifier in `ids`, the status at the same
/// position of `statuses`; of two equal identifiers the later one counts.
pub open spec fn map_of(ids: Seq<Seq<char>>, statuses: Seq<StatusModel>) -> Map<
    Seq<char>,
    StatusModel,
>
    decreases ids.len(),
{
    if ids.len() == 0 {
        Map::empty()
    } else {
        map_of(ids.drop_last(), statuses.drop_last()).insert(ids.last(), statuses.last())
    }
}

/// The statuses of the listing, in order.
pub open spec fn statuses_of(apps: Seq<DescriptorModel>) -> Seq<StatusModel> {
    Seq::new(apps.len(), |i: int| apps[i].status)
}

/// The health map of a listing: each application's identifier with its
/// status. Where an identifier occurs more than once, the last status counts.
pub open spec fn health_of(apps: Seq<DescriptorModel>) -> Map<Seq<char>, StatusModel> {
    map_of(ids_of(apps), statuses_of(apps))
}

/// No identifier occurs twice in the listing.
pub open spec fn distinct_ids(apps: Seq<DescriptorModel>) -> bool {
    forall|i: int, j: int| 0 <= i < j < apps.len() ==> apps[i].id != apps[j].id
}

/// The keys of the map are the entries of the list of keys, and the map is
/// finite.
pub proof fn lemma_map_of_keys(ids: Seq<Seq<char>>, statuses: Seq<StatusModel>)
    requires
        ids.len() == statuses.len(),
    ensures
        forall|key: Seq<char>| #[trigger]
            map_of(ids, statuses).dom().contains(key) <==> ids.contains(key),
        map_of(ids, statuses).dom().finite(),
    decreases ids.len(),
{
    if ids.len() > 0 {
        let rest = ids.drop_last();
        lemma_map_of_keys(rest, statuses.drop_last());
        assert forall|key: Seq<char>| #[trigger]
            map_of(ids, statuses).dom().contains(key) <==> ids.contains(key) by {
            if map_of(ids, statuses).dom().contains(key) {
                if key == ids.last() {
                    assert(ids[ids.len() - 1] == key);
                } else {
                    let i = choose|i: int| 0 <= i < rest.len() && rest[i] == key;
                    assert(ids[i] == key);
                }
            }
            if ids.contains(key) {
                let i = choose|i: int| 0 <= i < ids.len() && ids[i] == key;
                if i < ids.len() - 1 {
                    assert(rest[i] == key);
                }
            }
        }
    }
}

/// A key leads to the value at its last position in the list of keys.
pub proof fn lemma_map_of_last(ids: Seq<Seq<char>>, statuses: Seq<StatusModel>, at: int)
    requires
        ids.len() == statuses.len(),
        0 <= at < ids.len(),
        forall|j: int| at < j < ids.len() ==> ids[j] != ids[at],
    ensures
        map_of(ids, statuses).dom().contains(ids[at]),
        map_of(ids, statuses)[ids[at]] == statuses[at],
    decreases ids.len(),
{
    if at < ids.len() - 1 {
        let rest = ids.drop_last();
        assert forall|j: int| at < j < rest.len() implies rest[j] != rest[at] by {
            assert(rest[j] == ids[j]);
        }
        lemma_map_of_last(rest, statuses.drop_last(), at);
    }
}

/// The keys of the health map are exactly the identifiers of the listing,
/// and the map is finite.
pub proof fn lemma_health_keys(apps: Seq<DescriptorModel>)
    ensures
        health_of(apps).dom() == ids_of(apps).to_set(),
        health_of(apps).dom().finite(),
{
    lemma_map_of_keys(ids_of(apps), statuses_of(apps));
    assert(health_of(apps).dom() =~= ids_of(apps).to_set());
}

/// The status of an application passes through the health map unchanged:
/// under its identifier the map holds the status that the listing gave,
/// provided that no later entry of the listing has the same identifier.
pub proof fn lemma_health_round_trip(apps: Seq<DescriptorModel>, i: int)
    requires
        0 <= i < apps.len(),
        forall|j: int| i < j < apps.len() ==> apps[j].id != apps[i].id,
    ensures
        health_of(apps).dom().contains(apps[i].id),
        health_of(apps)[apps[i].id] == apps[i].status,
{
    lemma_map_of_last(ids_of(apps), statuses_of(apps), i);
}

/// In a listing without repeated identifiers, every application's status
/// passes through the health map unchanged.
pub proof fn lemma_health_of_distinct(apps: Seq<DescriptorModel>)
    requires
        distinct_ids(apps),
    ensures
        forall|i: int|
            0 <= i < apps.len() ==> health_of(apps).dom().contains(#[trigger] apps[i].id)
                && health_of(apps)[apps[i].id] == apps[i].status,
{
    assert forall|i: int| 0 <= i < apps.len() implies health_of(apps).dom().contains(
        #[trigger] apps[i].id,
    ) && health_of(apps)[apps[i].id] == apps[i].status by {
        lemma_health_round_trip(apps, i);
    }
}

/// The status of each installed application, by identifier.
#[derive(Debug)]
pub struct HealthMap {
    ids: Vec<String>,
    statuses: Vec<ApplicationStatus>,
}

/// The models of the statuses, in order.
pub open spec fn status_models(statuses: Seq<ApplicationStatus>) -> Seq<StatusModel> {
    Seq::new(statuses.len(), |i: int| statuses[i]@)
}

/// To replace the value at the position of a key is to insert under that key.
proof fn lemma_map_of_update(
    ids: Seq<Seq<char>>,
    statuses: Seq<StatusModel>,
    at: int,
    status: StatusModel,
)
    requires
        ids.len() == statuses.len(),
        0 <= at < ids.len(),
        forall|i: int, j: int| 0 <= i < j < ids.len() ==> ids[i] != ids[j],
    ensures
        map_of(ids, statuses.update(at, status)) == map_of(ids, statuses).insert(ids[at], status),
    decreases ids.len(),
{
    let changed = statuses.update(at, status);
    if at == ids.len() - 1 {
        assert(changed.drop_last() =~= statuses.drop_last());
        assert(map_of(ids, changed) =~= map_of(ids, statuses).insert(ids[at], status));
    } else {
        lemma_map_of_update(ids.drop_last(), statuses.drop_last(), at, status);
        assert(changed.drop_last() =~= statuses.drop_last().update(at, status));
        assert(ids.drop_last()[at] == ids[at]);
        assert(map_of(ids, changed) =~= map_of(ids, statuses).insert(ids[at], status));
    }
}

impl HealthMap {
    #[verifier::type_invariant]
    spec fn well_formed(self) -> bool {
        &&& self.ids.len() == self.statuses.len()
        &&& forall|i: int, j: int|
            0 <= i < j < self.ids.len() ==> self.ids@[i]@ != self.ids@[j]@
    }

    /// The map from identifier to status.
    pub closed spec fn view(&self) -> Map<Seq<char>, StatusModel> {
        map_of(texts(self.ids@), status_models(self.statuses@))
    }

    /// The identifiers in the order in which they were first inserted.
    pub closed spec fn keys(&self) -> Seq<Seq<char>> {
        texts(self.ids@)
    }

    /// A map without entries.
    pub fn new() -> (out: HealthMap)
        ensures
            out@ == Map::<Seq<char>, StatusModel>::empty(),
            out.keys() == Seq::<Seq<char>>::empty(),
    {
        let out = HealthMap { ids: Vec::new(), statuses: Vec::new() };
        assert(texts(out.ids@) =~= Seq::<Seq<char>>::empty());
        out
    }

    /// The map with the status of `id` set to `status`.
    fn with(self, id: String, status: ApplicationStatus) -> (out: HealthMap)
        ensures
            out@ == self@.insert(id@, status@),
            out.keys() == if self.keys().contains(id@) {
                self.keys()
            } else {
                self.keys().push(id@)
            },
    {
        proof {
            use_type_invariant(&self);
        }
        let ghost keys = texts(self.ids@);
        let ghost values = status_models(self.statuses@);
        let found = position_of(&self.ids, id.as_str());
        let HealthMap { mut ids, mut statuses } = self;
        match found {
            Some(p) => {
                statuses.set(p, status);
                proof {
                    assert(keys[p as int] == id@);
                    lemma_map_of_update(keys, values, p as int, status@);
                    assert(status_models(statuses@) =~= values.update(p as int, status@));
                }
            },
            None => {
                ids.push(id);
                statuses.push(status);
                proof {
                    assert(texts(ids@) =~= keys.push(id@));
                    assert(status_models(statuses@) =~= values.push(status@));
                    assert(keys.push(id@).drop_last() =~= keys);
                    assert(values.push(status@).drop_last() =~= values);
                    assert forall|a: int, b: int| 0 <= a < b < ids.len() implies ids@[a]@
                        != ids@[b]@ by {
                        if b == ids.len() - 1 {
                            assert(keys[a] == ids@[a]@);
                        }
                    }
                }
            },
        }
        HealthMap { ids, statuses }
    }

    /// Sets the status of `id`, whether or not the map held one for it.
    pub fn insert(&mut self, id: String, status: ApplicationStatus)
        ensures
            final(self)@ == old(self)@.insert(id@, status@),
            final(self).keys() == if old(self).keys().contains(id@) {
                old(self).keys()
            } else {
                old(self).keys().push(id@)
            },
    {
        let mut before = HealthMap::new();
        core::mem::swap(self, &mut before);
        *self = before.with(id, status);
    }

    /// The status of `id`, if the map holds one.
    pub fn get(&self, id: &str) -> (out: Option<&ApplicationStatus>)
        ensures
            match out {
                Some(status) => self@.dom().contains(id@) && self@[id@] == status@,
                None => !self@.dom().contains(id@),
            },
    {
        proof {
            use_type_invariant(self);
            lemma_map_of_keys(texts(self.ids@), status_models(self.statuses@));
        }
        match position_of(&self.ids, id) {
            Some(p) => {
                proof {
                    lemma_map_of_last(
                        texts(self.ids@),
                        status_models(self.statuses@),
                        p as int,
                    );
                }
                Some(&self.statuses[p])
            },
            None => None,
        }
    }

    /// The number of applications in the map. The positions below it lead,
    /// through `entry`, to every key of the map, to each once.
    pub fn len(&self) -> (n: usize)
        ensures
            n == self.keys().len(),
            n == self@.dom().len(),
            self.keys().no_duplicates(),
            self.keys().to_set() == self@.dom(),
    {
        proof {
            use_type_invariant(self);
            let keys = texts(self.ids@);
            lemma_distinct_keys_len(keys, status_models(self.statuses@));
            lemma_map_of_keys(keys, status_models(self.statuses@));
            assert forall|i: int, j: int| 0 <= i < keys.len() && 0 <= j < keys.len() && i != j
                implies keys[i] != keys[j] by {
                assert(keys[i] == self.ids@[i]@ && keys[j] == self.ids@[j]@);
            }
            assert(keys.to_set() =~= self@.dom());
        }
        self.ids.len()
    }

    /// The identifier and the status at position `at` in the order of first
    /// insertion.
    pub fn entry(&self, at: usize) -> (out: (&String, &ApplicationStatus))
        requires
            at < self.keys().len(),
        ensures
            out.0@ == self.keys()[at as int],
            self@.dom().contains(out.0@),
            self@[out.0@] == out.1@,
    {
        proof {
            use_type_invariant(self);
            lemma_map_of_last(texts(self.ids@), status_models(self.statuses@), at as int);
        }
        (&self.ids[at], &self.statuses[at])
    }
}

/// A list of distinct keys gives a map with as many entries.
proof fn lemma_distinct_keys_len(ids: Seq<Seq<char>>, statuses: Seq<StatusModel>)
    requires
        ids.len() == statuses.len(),
        forall|i: int, j: int| 0 <= i < j < ids.len() ==> ids[i] != ids[j],
    ensures
        map_of(ids, statuses).dom().len() == ids.len(),
        map_of(ids, statuses).dom().finite(),
    decreases ids.len(),
{
    if ids.len() > 0 {
        let rest = ids.drop_last();
        lemma_distinct_keys_len(rest, statuses.drop_last());
        lemma_map_of_keys(rest, statuses.drop_last());
        if rest.contains(ids.last()) {
            let i = choose|i: int| 0 <= i < rest.len() && rest[i] == ids.last();
            assert(ids[i] == ids[ids.len() - 1]);
        }
    }
}

/// Builds the health map from the outcome of listing all installed
/// applications: each application's status under its identifier. A failed
/// listing is passed on as it is.
pub fn get_hpos_app_health(listed: Result<Vec<ApplicationDescriptor>, Error>) -> (out: Result<
    HealthMap,
    Error,
>)
    ensures
        match listed {
            Ok(apps) => out matches Ok(map) && map@ == health_of(models(apps@)),
            Err(e) => out == Err::<HealthMap, Error>(e),
        },
{
    match listed {
        Ok(apps) => {
            let mut map = HealthMap::new();
            let mut i: usize = 0;
            assert(models(apps@).take(0) =~= Seq::<DescriptorModel>::empty());
            while i < apps.len()
                invariant
                    i <= apps.len(),
                    map@ == health_of(models(apps@).take(i as int)),
                decreases apps.len() - i,
            {
                let ghost seen = models(apps@).take(i as int);
                let ghost next = models(apps@).take(i + 1);
                assert(ids_of(next).drop_last() =~= ids_of(seen));
                assert(statuses_of(next).drop_last() =~= statuses_of(seen));
                assert(next.last() == apps@[i as int]@);
                map.insert(apps[i].id.clone(), apps[i].status.clone());
                i += 1;
            }
            assert(models(apps@).take(apps@.len() as int) =~= models(apps@));
            Ok(map)
        },
        Err(e) => Err(e),
    }
}

} // verus!
