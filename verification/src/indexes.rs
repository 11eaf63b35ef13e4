//! Index location combination: explicit index configuration merged with
//! index directives discovered inside requirement sources.

use vstd::prelude::*;
use crate::text::clone_string;

verus! {

/// Where an index entry came from, for diagnostics.
pub enum IndexOrigin {
    CommandLineOrigin,
    RequirementsFileOrigin,
}

/// One package index: its location, origin, whether it is the default
/// (primary) index, and any embedded credentials, already parsed out of the
/// location by the caller.
pub struct Index {
    pub url: String,
    pub origin: IndexOrigin,
    pub is_default: bool,
    pub credentials: Option<String>,
}

/// The combined index configuration: ordered package indexes, ordered
/// flat-file link sources, and the override that suppresses all network
/// indexes.
pub struct IndexLocations {
    pub indexes: Vec<Index>,
    pub flat: Vec<Index>,
    pub no_index: bool,
}

/// An entry appended from a requirement source: a bare supplementary index
/// at the given location.
pub open spec fn is_file_index(e: Index, url: Seq<char>) -> bool {
    &&& e.url@ == url
    &&& e.origin is RequirementsFileOrigin
    &&& !e.is_default
    &&& e.credentials is None
}

/// Some entry is marked as the default index.
pub open spec fn has_default(s: Seq<Index>) -> bool {
    exists|i: int| 0 <= i < s.len() && s[i].is_default
}

/// Decide whether any entry is marked as the default index.
fn any_default(indexes: &Vec<Index>) -> (r: bool)
    ensures
        r == has_default(indexes@),
{
    let mut i: usize = 0;
    while i < indexes.len()
        invariant
            i <= indexes.len(),
            forall|j: int| 0 <= j < i ==> !indexes@[j].is_default,
        decreases indexes.len() - i,
    {
        if indexes[i].is_default {
            return true;
        }
        i = i + 1;
    }
    false
}

impl IndexLocations {
    /// Merge the directives discovered inside requirement sources into the
    /// explicit configuration. Existing entries keep their positions;
    /// discovered supplementary indexes follow them in file order; a
    /// discovered primary index is appended last and becomes the default
    /// only when none was set before; the no-index override, wherever set,
    /// suppresses network indexes for the whole request.
    pub fn combine(
        self,
        extra_index_urls: &Vec<String>,
        index_url: &Option<String>,
        find_links: &Vec<String>,
        file_no_index: bool,
    ) -> (r: IndexLocations)
        ensures
            r.no_index == (self.no_index || file_no_index),
            r.indexes@.len() == self.indexes@.len() + extra_index_urls@.len() + (
            if index_url is Some {
                1int
            } else {
                0int
            }),
            forall|i: int| 0 <= i < self.indexes@.len() ==> r.indexes@[i] == self.indexes@[i],
            forall|j: int|
                0 <= j < extra_index_urls@.len() ==> is_file_index(
                    #[trigger] r.indexes@[self.indexes@.len() + j],
                    extra_index_urls.deep_view()[j],
                ),
            (*index_url) matches Some(u) ==> (r.indexes@.last().url@ == u@
                && r.indexes@.last().origin is RequirementsFileOrigin
                && r.indexes@.last().is_default == !has_default(self.indexes@)
                && r.indexes@.last().credentials is None),
            r.flat@.len() == self.flat@.len() + find_links@.len(),
            forall|i: int| 0 <= i < self.flat@.len() ==> r.flat@[i] == self.flat@[i],
            forall|j: int|
                0 <= j < find_links@.len() ==> is_file_index(
                    #[trigger] r.flat@[self.flat@.len() + j],
                    find_links.deep_view()[j],
                ),
    {
        let had_default = any_default(&self.indexes);
        let IndexLocations { mut indexes, mut flat, no_index } = self;
        let ghost orig_indexes = indexes@;
        let ghost orig_flat = flat@;
        let mut j: usize = 0;
        while j < extra_index_urls.len()
            invariant
                j <= extra_index_urls.len(),
                extra_index_urls.deep_view().len() == extra_index_urls.len(),
                indexes@.len() == orig_indexes.len() + j,
                forall|i: int| 0 <= i < orig_indexes.len() ==> indexes@[i] == orig_indexes[i],
                forall|k: int|
                    0 <= k < j ==> is_file_index(
                        #[trigger] indexes@[orig_indexes.len() + k],
                        extra_index_urls.deep_view()[k],
                    ),
            decreases extra_index_urls.len() - j,
        {
            let e = Index {
                url: clone_string(&extra_index_urls[j]),
                origin: IndexOrigin::RequirementsFileOrigin,
                is_default: false,
                credentials: Option::None,
            };
            let ghost ge = e;
            let ghost prev = indexes@;
            indexes.push(e);
            proof {
                assert(indexes@ =~= prev.push(ge));
                assert forall|k: int|
                    0 <= k < j + 1 implies is_file_index(
                        #[trigger] indexes@[orig_indexes.len() + k],
                        extra_index_urls.deep_view()[k],
                    ) by {
                    if k < j {
                        assert(indexes@[orig_indexes.len() + k] == prev[orig_indexes.len() + k]);
                        assert(is_file_index(prev[orig_indexes.len() + k], extra_index_urls.deep_view()[k]));
                    } else {
                        assert(indexes@[orig_indexes.len() + k] == ge);
                        assert(is_file_index(ge, extra_index_urls.deep_view()[k]));
                    }
                }
            }
            j = j + 1;
        }
        if let Option::Some(u) = index_url {
            indexes.push(
                Index {
                    url: clone_string(u),
                    origin: IndexOrigin::RequirementsFileOrigin,
                    is_default: !had_default,
                    credentials: Option::None,
                },
            );
        }
        let mut k: usize = 0;
        while k < find_links.len()
            invariant
                k <= find_links.len(),
                find_links.deep_view().len() == find_links.len(),
                flat@.len() == orig_flat.len() + k,
                forall|i: int| 0 <= i < orig_flat.len() ==> flat@[i] == orig_flat[i],
                forall|m: int|
                    0 <= m < k ==> is_file_index(
                        #[trigger] flat@[orig_flat.len() + m],
                        find_links.deep_view()[m],
                    ),
            decreases find_links.len() - k,
        {
            let e = Index {
                url: clone_string(&find_links[k]),
                origin: IndexOrigin::RequirementsFileOrigin,
                is_default: false,
                credentials: Option::None,
            };
            let ghost ge = e;
            let ghost prev = flat@;
            flat.push(e);
            proof {
                assert(flat@ =~= prev.push(ge));
                assert forall|m: int|
                    0 <= m < k + 1 implies is_file_index(
                        #[trigger] flat@[orig_flat.len() + m],
                        find_links.deep_view()[m],
                    ) by {
                    if m < k {
                        assert(flat@[orig_flat.len() + m] == prev[orig_flat.len() + m]);
                        assert(is_file_index(prev[orig_flat.len() + m], find_links.deep_view()[m]));
                    } else {
                        assert(flat@[orig_flat.len() + m] == ge);
                        assert(is_file_index(ge, find_links.deep_view()[m]));
                    }
                }
            }
            k = k + 1;
        }
        IndexLocations { indexes, flat, no_index: no_index || file_no_index }
    }

    /// The location/credential pairs to persist before the registry client
    /// is built, in index order; none when network indexes are suppressed.
    pub fn credentials_to_persist(&self) -> (r: Vec<(String, String)>)
        ensures
            self.no_index ==> r@.len() == 0,
            !self.no_index ==> r@ == cred_pairs(self.indexes@),
    {
        let mut r: Vec<(String, String)> = Vec::new();
        if self.no_index {
            return r;
        }
        let mut i: usize = 0;
        proof {
            assert(self.indexes@.take(0) =~= Seq::<Index>::empty());
        }
        while i < self.indexes.len()
            invariant
                i <= self.indexes.len(),
                r@ == cred_pairs(self.indexes@.take(i as int)),
            decreases self.indexes.len() - i,
        {
            let ghost before = r@;
            match &self.indexes[i].credentials {
                Option::Some(c) => {
                    r.push((self.indexes[i].url.clone(), c.clone()));
                },
                Option::None => {},
            }
            proof {
                let s = self.indexes@;
                assert(s.take(i as int + 1).drop_last() =~= s.take(i as int));
                assert(s.take(i as int + 1).last() == s[i as int]);
                match s[i as int].credentials {
                    Option::Some(c) => {
                        assert(r@ =~= before + seq![(s[i as int].url, c)]);
                    },
                    Option::None => {
                        assert(r@ =~= before + Seq::<(String, String)>::empty());
                    },
                }
            }
            i = i + 1;
        }
        proof {
            assert(self.indexes@.take(self.indexes.len() as int) =~= self.indexes@);
        }
        r
    }
}

/// The location/credential pairs of the entries that carry credentials,
/// in order.
pub open spec fn cred_pairs(s: Seq<Index>) -> Seq<(String, String)>
    decreases s.len(),
{
    if s.len() == 0 {
        Seq::empty()
    } else {
        cred_pairs(s.drop_last()) + (match s.last().credentials {
            Option::Some(c) => seq![(s.last().url, c)],
            Option::None => Seq::empty(),
        })
    }
}

} // verus!
