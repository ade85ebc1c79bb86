//! How often each hostable application of a catalog is installed: for every
//! identifier of the catalog, the number of installed applications whose
//! identifier holds it.

use crate::application::{ids_of, models, ApplicationDescriptor};
use crate::text::{chars_of, contains, find, position_of, seqs_of, texts};
use vstd::prelude::*;

verus! {

/// The number of texts in `installed` in which `key` stands.
pub open spec fn times_contained(installed: Seq<Seq<char>>, key: Seq<char>) -> nat
    decreases installed.len(),
{
    if installed.len() == 0 {
        0
    } else {
        times_contained(installed.drop_last(), key) + if contains(installed.last(), key) {
            1nat
        } else {
            0nat
        }
    }
}

/// The usage counts of a catalog: its keys are the identifiers of the
/// catalog, and each leads to the number of installed identifiers that hold
/// it.
pub open spec fn usage_of(catalog: Seq<Seq<char>>, installed: Seq<Seq<char>>) -> Map<
    Seq<char>,
    nat,
> {
    Map::new(|key: Seq<char>| catalog.contains(key), |key: Seq<char>| times_contained(installed, key))
}

/// No text holds a key more often than there are texts.
pub proof fn lemma_times_contained_bound(installed: Seq<Seq<char>>, key: Seq<char>)
    ensures
        times_contained(installed, key) <= installed.len(),
    decreases installed.len(),
{
    if installed.len() > 0 {
        lemma_times_contained_bound(installed.drop_last(), key);
    }
}

/// The keys of the usage counts are exactly the identifiers of the catalog,
/// and no count exceeds the number of installed applications.
pub proof fn lemma_usage_keys_and_bounds(catalog: Seq<Seq<char>>, installed: Seq<Seq<char>>)
    ensures
        usage_of(catalog, installed).dom() == catalog.to_set(),
        usage_of(catalog, installed).dom().finite(),
        forall|key: Seq<char>|
            catalog.contains(key) ==> #[trigger] usage_of(catalog, installed)[key]
                <= installed.len(),
{
    assert(usage_of(catalog, installed).dom() =~= catalog.to_set());
    vstd::seq_lib::seq_to_set_is_finite(catalog);
    assert forall|key: Seq<char>| catalog.contains(key) implies #[trigger] usage_of(
        catalog,
        installed,
    )[key] <= installed.len() by {
        lemma_times_contained_bound(installed, key);
    }
}

/// An installed identifier that holds no identifier of the catalog changes
/// no count.
pub proof fn lemma_unrelated_is_ignored(
    catalog: Seq<Seq<char>>,
    installed: Seq<Seq<char>>,
    other: Seq<char>,
)
    requires
        forall|k: int| 0 <= k < catalog.len() ==> !contains(other, #[trigger] catalog[k]),
    ensures
        usage_of(catalog, installed.push(other)) == usage_of(catalog, installed),
{
    let more = installed.push(other);
    assert(more.drop_last() =~= installed);
    assert forall|key: Seq<char>| catalog.contains(key) implies times_contained(more, key)
        == times_contained(installed, key) by {
        let k = choose|k: int| 0 <= k < catalog.len() && catalog[k] == key;
        assert(!contains(other, catalog[k]));
    }
    assert(usage_of(catalog, more) =~= usage_of(catalog, installed));
}

/// The usage count of each identifier of a catalog.
#[derive(Debug)]
pub struct UsageCounts {
    ids: Vec<String>,
    counts: Vec<usize>,
}

impl UsageCounts {
    #[verifier::type_invariant]
    spec fn well_formed(self) -> bool {
        &&& self.ids.len() == self.counts.len()
        &&& forall|i: int, j: int|
            0 <= i < j < self.ids.len() ==> self.ids@[i]@ != self.ids@[j]@
    }

    /// The identifiers of the catalog, each once, in the order of the catalog.
    pub closed spec fn keys(&self) -> Seq<Seq<char>> {
        texts(self.ids@)
    }

    /// The map from identifier to count.
    pub closed spec fn view(&self) -> Map<Seq<char>, nat> {
        Map::new(
            |key: Seq<char>| texts(self.ids@).contains(key),
            |key: Seq<char>| self.counts@[texts(self.ids@).index_of(key)] as nat,
        )
    }

    /// The count of `id`, if the catalog holds it.
    pub fn get(&self, id: &str) -> (out: Option<usize>)
        ensures
            match out {
                Some(count) => self@.dom().contains(id@) && self@[id@] == count,
                None => !self@.dom().contains(id@),
            },
    {
        proof {
            use_type_invariant(self);
        }
        match position_of(&self.ids, id) {
            Some(p) => {
                proof {
                    assert(texts(self.ids@)[p as int] == id@);
                    let q = texts(self.ids@).index_of(id@);
                    assert(self.ids@[q]@ == self.ids@[p as int]@);
                }
                Some(self.counts[p])
            },
            None => None,
        }
    }

    /// The number of identifiers. The positions below it lead, through
    /// `entry`, to every key of the map, to each once.
    pub fn len(&self) -> (n: usize)
        ensures
            n == self.keys().len(),
            self.keys().no_duplicates(),
            self.keys().to_set() == self@.dom(),
    {
        proof {
            use_type_invariant(self);
            let keys = texts(self.ids@);
            assert forall|i: int, j: int| 0 <= i < keys.len() && 0 <= j < keys.len() && i != j
                implies keys[i] != keys[j] by {
                assert(keys[i] == self.ids@[i]@ && keys[j] == self.ids@[j]@);
            }
            assert(keys.to_set() =~= self@.dom());
        }
        self.ids.len()
    }

    /// The identifier at position `at` and its count.
    pub fn entry(&self, at: usize) -> (out: (&String, usize))
        requires
            at < self.keys().len(),
        ensures
            out.0@ == self.keys()[at as int],
            self@.dom().contains(out.0@),
            self@[out.0@] == out.1,
    {
        proof {
            use_type_invariant(self);
            let key = texts(self.ids@)[at as int];
            let q = texts(self.ids@).index_of(key);
            assert(self.ids@[q]@ == self.ids@[at as int]@);
        }
        (&self.ids[at], self.counts[at])
    }
}

/// The characters of each identifier of the listing.
fn id_chars(installed: &Vec<ApplicationDescriptor>) -> (out: Vec<Vec<char>>)
    ensures
        out.len() == installed.len(),
        forall|i: int| 0 <= i < out.len() ==> (#[trigger] out@[i])@ == installed@[i].id@,
{
    let mut out: Vec<Vec<char>> = Vec::new();
    let mut i: usize = 0;
    while i < installed.len()
        invariant
            i <= installed.len(),
            out.len() == i,
            forall|k: int| 0 <= k < i ==> (#[trigger] out@[k])@ == installed@[k].id@,
        decreases installed.len() - i,
    {
        out.push(chars_of(installed[i].id.as_str()));
        i += 1;
    }
    out
}

/// The number of texts in `installed` in which `key` stands.
fn count_holding(installed: &Vec<Vec<char>>, key: &Vec<char>) -> (count: usize)
    ensures
        count == times_contained(seqs_of(installed@), key@),
{
    let mut count: usize = 0;
    let mut i: usize = 0;
    assert(seqs_of(installed@).take(0) =~= Seq::<Seq<char>>::empty());
    while i < installed.len()
        invariant
            i <= installed.len(),
            count <= i,
            count == times_contained(seqs_of(installed@).take(i as int), key@),
        decreases installed.len() - i,
    {
        let ghost next = seqs_of(installed@).take(i + 1);
        assert(next.drop_last() =~= seqs_of(installed@).take(i as int));
        assert(next.last() == installed@[i as int]@);
        if find(&installed[i], key).is_some() {
            count += 1;
        }
        i += 1;
    }
    assert(seqs_of(installed@).take(installed@.len() as int) =~= seqs_of(installed@));
    count
}

/// Counts, for every identifier of `catalog`, the applications of
/// `installed` whose identifier holds it. Installed applications that hold
/// no identifier of the catalog are ignored.
pub fn count_installed(catalog: &Vec<String>, installed: &Vec<ApplicationDescriptor>) -> (out:
    UsageCounts)
    ensures
        out@ == usage_of(texts(catalog@), ids_of(models(installed@))),
        out@.dom().finite(),
{
    let held = id_chars(installed);
    assert(seqs_of(held@) =~= ids_of(models(installed@)));
    let mut out = UsageCounts { ids: Vec::new(), counts: Vec::new() };
    let mut i: usize = 0;
    while i < catalog.len()
        invariant
            i <= catalog.len(),
            seqs_of(held@) == ids_of(models(installed@)),
            out.ids.len() == out.counts.len(),
            forall|a: int, b: int| 0 <= a < b < out.ids.len() ==> out.ids@[a]@ != out.ids@[b]@,
            forall|key: Seq<char>|
                texts(out.ids@).contains(key) <==> texts(catalog@).take(i as int).contains(key),
            forall|k: int|
                0 <= k < out.ids.len() ==> out.counts@[k] == times_contained(
                    seqs_of(held@),
                    #[trigger] texts(out.ids@)[k],
                ),
        decreases catalog.len() - i,
    {
        let key = chars_of(catalog[i].as_str());
        let ghost seen = texts(catalog@).take(i as int);
        let ghost next = texts(catalog@).take(i + 1);
        let ghost before = texts(out.ids@);
        assert(next =~= seen.push(key@));
        let known = position_of(&out.ids, catalog[i].as_str());
        if known.is_none() {
            let count = count_holding(&held, &key);
            let UsageCounts { mut ids, mut counts } = out;
            ids.push(catalog[i].clone());
            counts.push(count);
            assert(texts(ids@) =~= before.push(key@));
            assert forall|a: int, b: int| 0 <= a < b < ids.len() implies ids@[a]@ != ids@[b]@ by {
                if b == ids.len() - 1 {
                    assert(before[a] == ids@[a]@);
                }
            }
            out = UsageCounts { ids, counts };
        }
        proof {
            let after = texts(out.ids@);
            assert forall|k: Seq<char>| after.contains(k) <==> next.contains(k) by {
                if after.contains(k) {
                    let p = choose|p: int| 0 <= p < after.len() && after[p] == k;
                    if p < before.len() {
                        assert(before[p] == k);
                        assert(before.contains(k));
                        let q = choose|q: int| 0 <= q < seen.len() && seen[q] == k;
                        assert(next[q] == k);
                    } else {
                        assert(next[i as int] == k);
                    }
                }
                if next.contains(k) {
                    let q = choose|q: int| 0 <= q < next.len() && next[q] == k;
                    if q < i {
                        assert(seen[q] == k);
                        assert(before.contains(k));
                        let p = choose|p: int| 0 <= p < before.len() && before[p] == k;
                        assert(after[p] == k);
                    } else if known.is_none() {
                        assert(after[before.len() as int] == k);
                    } else {
                        assert(after[known.unwrap() as int] == k);
                    }
                }
            }
        }
        i += 1;
    }
    proof {
        assert(texts(catalog@).take(catalog@.len() as int) =~= texts(catalog@));
        let keys = texts(out.ids@);
        let wanted = usage_of(texts(catalog@), ids_of(models(installed@)));
        assert forall|key: Seq<char>| out@.dom().contains(key) implies out@[key] == wanted[key] by {
            let q = keys.index_of(key);
            assert(keys[q] == key);
        }
        assert(out@ =~= wanted);
        lemma_usage_keys_and_bounds(texts(catalog@), ids_of(models(installed@)));
    }
    out
}

} // verus!
