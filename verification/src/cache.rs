//! The connection cache: one shared client per connection name.
//!
//! The cache memoizes a client per caller-chosen name so that repeated
//! operations against one "connected" endpoint do not rebuild the
//! connection. Lookups of a known name return the installed client and
//! change nothing — a second request for a name never constructs a
//! second client — and a failed construction installs nothing. The
//! abstract value of the cache is the map from names to clients.

use vstd::prelude::*;
use vstd::string::*;

use crate::config::S3Config;
use crate::errors::S3Error;
use crate::service::service_matches_config;
use crate::service::S3Service;
use crate::text::str_eq;

verus! {

/// One installed connection: the name it was requested under and the
/// client built for it.
struct CacheEntry {
    name: String,
    service: S3Service,
}

/// No two entries share a name.
spec fn unique_names(s: Seq<CacheEntry>) -> bool {
    forall|i: int, j: int|
        0 <= i < j < s.len() ==> (#[trigger] s[i]).name@ != (#[trigger] s[j]).name@
}

/// The map an entry sequence stands for.
spec fn entries_map(s: Seq<CacheEntry>) -> Map<Seq<char>, S3Service>
    decreases s.len(),
{
    if s.len() == 0 {
        Map::empty()
    } else {
        entries_map(s.drop_last()).insert(s.last().name@, s.last().service)
    }
}

proof fn lemma_entries_map_contains(s: Seq<CacheEntry>, k: Seq<char>)
    ensures
        entries_map(s).contains_key(k) <==> exists|i: int|
            0 <= i < s.len() && (#[trigger] s[i]).name@ == k,
    decreases s.len(),
{
    if s.len() == 0 {
    } else {
        lemma_entries_map_contains(s.drop_last(), k);
        assert(forall|i: int| 0 <= i < s.len() - 1 ==> s.drop_last()[i] == #[trigger] s[i]);
        if s.last().name@ == k {
            assert(s[s.len() - 1].name@ == k);
        } else {
            if exists|i: int| 0 <= i < s.len() && (#[trigger] s[i]).name@ == k {
                let i = choose|i: int| 0 <= i < s.len() && (#[trigger] s[i]).name@ == k;
                assert(i < s.len() - 1);
                assert(s.drop_last()[i].name@ == k);
            }
        }
    }
}

proof fn lemma_entries_map_get(s: Seq<CacheEntry>, i: int)
    requires
        unique_names(s),
        0 <= i < s.len(),
    ensures
        entries_map(s).contains_key(s[i].name@),
        entries_map(s)[s[i].name@] == s[i].service,
    decreases s.len(),
{
    if i == s.len() - 1 {
    } else {
        assert(forall|t: int| 0 <= t < s.len() - 1 ==> s.drop_last()[t] == #[trigger] s[t]);
        assert(unique_names(s.drop_last()));
        lemma_entries_map_get(s.drop_last(), i);
        assert(s[i].name@ != s.last().name@);
    }
}

proof fn lemma_entries_map_push(s: Seq<CacheEntry>, e: CacheEntry)
    ensures
        entries_map(s.push(e)) == entries_map(s).insert(e.name@, e.service),
{
    assert(s.push(e).drop_last() =~= s);
    assert(s.push(e).last() == e);
}

proof fn lemma_entries_map_remove(s: Seq<CacheEntry>, i: int)
    requires
        unique_names(s),
        0 <= i < s.len(),
    ensures
        entries_map(s.remove(i)) == entries_map(s).remove(s[i].name@),
        unique_names(s.remove(i)),
{
    let t = s.remove(i);
    let nm = s[i].name@;
    assert(forall|j: int| 0 <= j < i ==> t[j] == #[trigger] s[j]);
    assert(forall|j: int| i <= j < s.len() - 1 ==> t[j] == #[trigger] s[j + 1]);
    assert(unique_names(t)) by {
        assert forall|a: int, b: int| 0 <= a < b < t.len() implies (#[trigger] t[a]).name@ != (
        #[trigger] t[b]).name@ by {
            let a2: int = if a < i {
                a
            } else {
                a + 1
            };
            let b2: int = if b < i {
                b
            } else {
                b + 1
            };
            assert(t[a] == s[a2]);
            assert(t[b] == s[b2]);
        }
    }
    assert forall|k: Seq<char>| #[trigger]
        entries_map(t).contains_key(k) == entries_map(s).remove(nm).contains_key(k) by {
        lemma_entries_map_contains(t, k);
        lemma_entries_map_contains(s, k);
        if entries_map(t).contains_key(k) {
            let j = choose|j: int| 0 <= j < t.len() && (#[trigger] t[j]).name@ == k;
            let j2: int = if j < i {
                j
            } else {
                j + 1
            };
            assert(t[j] == s[j2]);
            assert(s[j2].name@ == k);
            assert(j2 != i);
            assert(k != nm);
        }
        if entries_map(s).remove(nm).contains_key(k) {
            let j = choose|j: int| 0 <= j < s.len() && (#[trigger] s[j]).name@ == k;
            assert(j != i);
            let j2: int = if j < i {
                j
            } else {
                j - 1
            };
            assert(t[j2] == s[j]);
            assert(t[j2].name@ == k);
        }
    }
    assert forall|k: Seq<char>| entries_map(t).contains_key(k) implies entries_map(t)[k]
        == entries_map(s).remove(nm)[k] by {
        lemma_entries_map_contains(t, k);
        let j = choose|j: int| 0 <= j < t.len() && (#[trigger] t[j]).name@ == k;
        let j2: int = if j < i {
            j
        } else {
            j + 1
        };
        assert(t[j] == s[j2]);
        lemma_entries_map_get(t, j);
        lemma_entries_map_get(s, j2);
    }
    assert(entries_map(t) =~= entries_map(s).remove(nm));
}

/// The cache: a mapping from connection name to the one client that
/// serves it.
pub struct S3ConnectionManager {
    entries: Vec<CacheEntry>,
}

impl View for S3ConnectionManager {
    type V = Map<Seq<char>, S3Service>;

    closed spec fn view(&self) -> Map<Seq<char>, S3Service> {
        entries_map(self.entries@)
    }
}

impl S3ConnectionManager {
    /// The cache's internal invariant: one entry per name.
    pub closed spec fn wf(&self) -> bool {
        unique_names(self.entries@)
    }

    /// Creates an empty cache.
    pub fn new() -> (r: Self)
        ensures
            r@ == Map::<Seq<char>, S3Service>::empty(),
            r.wf(),
    {
        S3ConnectionManager { entries: Vec::new() }
    }

    fn find_index(&self, name: &str) -> (r: Option<usize>)
        ensures
            match r {
                Some(i) => i < self.entries@.len() && self.entries@[i as int].name@ == name@,
                None => forall|i: int|
                    0 <= i < self.entries@.len() ==> (#[trigger] self.entries@[i]).name@ != name@,
            },
    {
        let n = self.entries.len();
        let mut i: usize = 0;
        while i < n
            invariant
                n == self.entries@.len(),
                i <= n,
                forall|k: int| 0 <= k < i ==> (#[trigger] self.entries@[k]).name@ != name@,
            decreases n - i,
        {
            if str_eq(self.entries[i].name.as_str(), name) {
                return Some(i);
            }
            i += 1;
        }
        None
    }

    /// Returns the client installed under `name`, building and
    /// installing one first when the name is new. A known name is
    /// answered from the cache — the supplied configuration is not even
    /// validated then — so at most one client ever exists per name. A
    /// construction failure installs nothing.
    pub fn get_or_create_connection(&mut self, name: &str, config: S3Config) -> (r: Result<
        S3Service,
        S3Error,
    >)
        requires
            old(self).wf(),
        ensures
            final(self).wf(),
            old(self)@.contains_key(name@) ==> (r matches Ok(s) && s == old(self)@[name@]
                && final(self)@ == old(self)@),
            !old(self)@.contains_key(name@) && (config.access_key@.len() == 0
                || config.secret_key@.len() == 0 || config.endpoint@.len() == 0) ==> (r matches Err(
                e,
            ) && e is ConfigurationError && final(self)@ == old(self)@),
            !old(self)@.contains_key(name@) && config.access_key@.len() > 0
                && config.secret_key@.len() > 0 && config.endpoint@.len() > 0 ==> (r matches Ok(s)
                && service_matches_config(s, config@) && final(self)@ == old(self)@.insert(
                name@,
                s,
            )),
    {
        proof {
            lemma_entries_map_contains(self.entries@, name@);
        }
        match self.find_index(name) {
            Some(i) => {
                proof {
                    lemma_entries_map_get(self.entries@, i as int);
                }
                Ok(self.entries[i].service.clone())
            },
            None => {
                match S3Service::new(config) {
                    Ok(service) => {
                        let shared = service.clone();
                        let ghost entries0 = self.entries@;
                        let entry = CacheEntry { name: String::from_str(name), service };
                        proof {
                            lemma_entries_map_push(entries0, entry);
                        }
                        self.entries.push(entry);
                        Ok(shared)
                    },
                    Err(e) => Err(e),
                }
            },
        }
    }

    /// Evicts the entry for `name` if one is installed; a no-op for an
    /// unknown name, and never a failure.
    pub fn remove_connection(&mut self, name: &str)
        requires
            old(self).wf(),
        ensures
            final(self).wf(),
            final(self)@ == old(self)@.remove(name@),
    {
        proof {
            lemma_entries_map_contains(self.entries@, name@);
        }
        match self.find_index(name) {
            Some(i) => {
                proof {
                    lemma_entries_map_remove(self.entries@, i as int);
                }
                self.entries.remove(i);
            },
            None => {
                proof {
                    assert(self@.remove(name@) =~= self@);
                }
            },
        }
    }

    /// Evicts every entry; used at process-wide teardown.
    pub fn clear_connections(&mut self)
        ensures
            final(self).wf(),
            final(self)@ == Map::<Seq<char>, S3Service>::empty(),
    {
        self.entries.clear();
    }
}

impl Default for S3ConnectionManager {
    /// The default cache is empty.
    fn default() -> (r: Self)
        ensures
            r@ == Map::<Seq<char>, S3Service>::empty(),
            r.wf(),
    {
        S3ConnectionManager::new()
    }
}

/// Once a client is installed in the cache under a name, a lookup of
/// that name observes that very client and leaves the cache unchanged:
/// with `get_or_create_connection`'s contract, two requests for one
/// name share a single client, and the construction happens only once.
pub proof fn lemma_cached_connection_shared(
    m: Map<Seq<char>, S3Service>,
    name: Seq<char>,
    s: S3Service,
)
    ensures
        m.insert(name, s).contains_key(name),
        m.insert(name, s)[name] == s,
{
}

} // verus!
