//! Keeping the backends and routes of a profile up to date.
//!
//! Addresses, matches and routes are numbered by the caller, which builds and drops the services
//! that the numbers stand for.

use ahash::AHashSet;
use vstd::prelude::*;

verus! {

/// The set of the `ahash` crate.
#[verifier::external_type_specification]
#[verifier::external_body]
#[verifier::reject_recursive_types(T)]
#[verifier::reject_recursive_types(S)]
pub struct ExAHashSet<T, S>(ahash::AHashSet<T, S>);

/// The hasher of the sets of the `ahash` crate.
#[verifier::external_type_specification]
#[verifier::external_body]
pub struct ExRandomState(ahash::RandomState);

/// What an `AHashSet` holds.
pub uninterp spec fn addr_set(set: AHashSet<u64, ahash::RandomState>) -> Set<u64>;

/// Calls `contains` of an `AHashSet`. The claim: it tells whether the set holds the number.
#[verifier::external_body]
fn set_contains(set: &AHashSet<u64>, addr: u64) -> (b: bool)
    ensures
        b == addr_set(*set).contains(addr),
{
    set.contains(&addr)
}

/// Calls `iter` of an `AHashSet` and copies the items out. The claim: each number that the set
/// holds comes once and nothing else comes. Nothing is claimed of their order.
#[verifier::external_body]
fn set_items(set: &AHashSet<u64>) -> (v: Vec<u64>)
    ensures
        v@.to_set() == addr_set(*set),
        v@.no_duplicates(),
{
    set.iter().copied().collect()
}

/// A stack that builds the routes of a profile.
#[derive(Clone, Debug)]
pub struct NewRoute<N, R> {
    pub new_backend: N,
    pub route_layer: R,
}

/// The backends and routes that are built.
#[derive(Debug)]
pub struct Update {
    pub backends: Vec<u64>,
    pub matches: Vec<(u64, u64)>,
}

/// What has to be built and dropped for the backends to be up to date.
#[derive(Debug)]
pub struct BackendChanges {
    pub changed: bool,
    pub removed: Vec<u64>,
    pub added: Vec<u64>,
}

fn holds(v: &Vec<u64>, addr: u64) -> (b: bool)
    ensures
        b == v@.contains(addr),
{
    let mut i: usize = 0;
    while i < v.len()
        invariant
            i <= v@.len(),
            forall|j: int| 0 <= j < i ==> v@[j] != addr,
        decreases v@.len() - i,
    {
        if v[i] == addr {
            proof {
                assert(v@[i as int] == addr);
            }
            return true;
        }
        i = i + 1;
    }
    false
}

fn same_matches(a: &Vec<(u64, u64)>, b: &Vec<(u64, u64)>) -> (r: bool)
    ensures
        r == (a@ == b@),
{
    if a.len() != b.len() {
        return false;
    }
    let mut i: usize = 0;
    while i < a.len()
        invariant
            i <= a@.len(),
            a@.len() == b@.len(),
            forall|j: int| 0 <= j < i ==> a@[j] == b@[j],
        decreases a@.len() - i,
    {
        let (am, ar) = a[i];
        let (bm, br) = b[i];
        if am != bm || ar != br {
            proof {
                assert(a@[i as int] != b@[i as int]);
            }
            return false;
        }
        i = i + 1;
    }
    proof {
        assert(a@ =~= b@);
    }
    true
}

impl<N, R> NewRoute<N, R> {
    /// Nothing is built at first.
    pub fn new_service(&self) -> (u: Update)
        ensures
            u.wf(),
            u.backends@.len() == 0,
            u.matches@.len() == 0,
    {
        Update { backends: Vec::new(), matches: Vec::new() }
    }
}

impl Update {
    /// No backend is built twice.
    pub open spec fn wf(self) -> bool {
        self.backends@.no_duplicates()
    }

    /// Keeps the backends of the given addresses, drops all others, and adds those that are
    /// missing.
    pub fn update_backends(&mut self, target_addrs: &AHashSet<u64>) -> (r: BackendChanges)
        requires
            old(self).wf(),
        ensures
            final(self).wf(),
            final(self).matches == old(self).matches,
            final(self).backends@.to_set() == addr_set(*target_addrs),
            r.removed@.to_set() == old(self).backends@.to_set().difference(
                addr_set(*target_addrs),
            ),
            r.added@.to_set() == addr_set(*target_addrs).difference(old(self).backends@.to_set()),
            r.changed == (old(self).backends@.to_set() != addr_set(*target_addrs)),
            r.added@.no_duplicates(),
            r.removed@.no_duplicates(),
    {
        let ghost before = self.backends@;
        let ghost targets = addr_set(*target_addrs);
        let mut kept: Vec<u64> = Vec::new();
        let mut removed: Vec<u64> = Vec::new();
        let mut i: usize = 0;
        while i < self.backends.len()
            invariant
                i <= self.backends@.len(),
                self.backends@ == before,
                self.matches == old(self).matches,
                before.no_duplicates(),
                targets == addr_set(*target_addrs),
                kept@.no_duplicates(),
                removed@.no_duplicates(),
                forall|x: u64|
                    #![trigger kept@.contains(x)]
                    kept@.contains(x) <==> before.take(i as int).contains(x) && targets.contains(x),
                forall|x: u64|
                    #![trigger removed@.contains(x)]
                    removed@.contains(x) <==> before.take(i as int).contains(x)
                        && !targets.contains(x),
            decreases self.backends@.len() - i,
        {
            let addr: u64 = self.backends[i];
            let ghost kept_before = kept@;
            let ghost removed_before = removed@;
            proof {
                assert(before.take(i + 1) =~= before.take(i as int).push(addr));
                lemma_push_contains(before.take(i as int), addr);
                lemma_push_contains(kept_before, addr);
                lemma_push_contains(removed_before, addr);
                assert(!before.take(i as int).contains(addr)) by {
                    if before.take(i as int).contains(addr) {
                        let j = choose|j: int| 0 <= j < i && before.take(i as int)[j] == addr;
                        assert(before[j] == before[i as int]);
                    }
                }
                assert(!kept_before.contains(addr));
                assert(!removed_before.contains(addr));
            }
            if set_contains(target_addrs, addr) {
                kept.push(addr);
                proof {
                    lemma_push_unique(kept_before, addr);
                }
            } else {
                removed.push(addr);
                proof {
                    lemma_push_unique(removed_before, addr);
                }
            }
            i = i + 1;
        }
        proof {
            assert(before.take(i as int) =~= before);
        }
        let items = set_items(target_addrs);
        let ghost kept_only = kept@;
        let mut added: Vec<u64> = Vec::new();
        let mut i: usize = 0;
        while i < items.len()
            invariant
                i <= items@.len(),
                items@.no_duplicates(),
                items@.to_set() == targets,
                kept@.no_duplicates(),
                added@.no_duplicates(),
                forall|x: u64|
                    #![trigger kept_only.contains(x)]
                    kept_only.contains(x) <==> before.contains(x) && targets.contains(x),
                forall|x: u64|
                    #![trigger kept@.contains(x)]
                    kept@.contains(x) <==> kept_only.contains(x) || items@.take(i as int).contains(
                        x,
                    ),
                forall|x: u64|
                    #![trigger added@.contains(x)]
                    added@.contains(x) <==> items@.take(i as int).contains(x) && !before.contains(
                        x,
                    ),
            decreases items@.len() - i,
        {
            let addr: u64 = items[i];
            let ghost kept_before = kept@;
            let ghost added_before = added@;
            proof {
                assert(items@.take(i + 1) =~= items@.take(i as int).push(addr));
                lemma_push_contains(items@.take(i as int), addr);
                lemma_push_contains(kept_before, addr);
                lemma_push_contains(added_before, addr);
                assert(items@.contains(addr));
                assert(items@.to_set().contains(addr));
                assert(!items@.take(i as int).contains(addr)) by {
                    if items@.take(i as int).contains(addr) {
                        let j = choose|j: int| 0 <= j < i && items@.take(i as int)[j] == addr;
                        assert(items@[j] == items@[i as int]);
                    }
                }
                assert(kept_before.contains(addr) <==> before.contains(addr));
                assert(!added_before.contains(addr));
            }
            if !holds(&kept, addr) {
                kept.push(addr);
                added.push(addr);
                proof {
                    lemma_push_unique(kept_before, addr);
                    lemma_push_unique(added_before, addr);
                }
            }
            i = i + 1;
        }
        let changed = removed.len() > 0 || added.len() > 0;
        self.backends = kept;
        proof {
            assert(items@.take(i as int) =~= items@);
            assert forall|x: u64| targets.contains(x) <==> #[trigger] items@.contains(x) by {
                assert(items@.to_set().contains(x) <==> items@.contains(x));
            }
            assert(self.backends@.to_set() =~= targets);
            assert(removed@.to_set() =~= before.to_set().difference(targets));
            assert(added@.to_set() =~= targets.difference(before.to_set()));
            if changed {
                if removed@.len() > 0 {
                    assert(removed@.contains(removed@[0]));
                    assert(before.to_set().contains(removed@[0]));
                } else {
                    assert(added@.contains(added@[0]));
                    assert(!before.to_set().contains(added@[0]));
                }
            } else {
                assert(before.to_set() =~= targets) by {
                    assert forall|x: u64| before.to_set().contains(x) <==> targets.contains(x) by {
                        assert(removed@.contains(x) <==> before.contains(x) && !targets.contains(x));
                        assert(added@.contains(x) <==> items@.contains(x) && !before.contains(x));
                    }
                }
            }
        }
        BackendChanges { changed, removed, added }
    }

    /// Brings backends and routes up to date. The routes are built anew if either changed.
    pub fn update(&mut self, target_addrs: &AHashSet<u64>, http_routes: &Vec<(u64, u64)>) -> (r: (
        BackendChanges,
        bool,
    ))
        requires
            old(self).wf(),
        ensures
            final(self).wf(),
            final(self).backends@.to_set() == addr_set(*target_addrs),
            final(self).matches@ == http_routes@,
            r.1 == (old(self).backends@.to_set() != addr_set(*target_addrs) || old(self).matches@
                != http_routes@),
            r.0.changed == (old(self).backends@.to_set() != addr_set(*target_addrs)),
            r.0.removed@.to_set() == old(self).backends@.to_set().difference(
                addr_set(*target_addrs),
            ),
            r.0.added@.to_set() == addr_set(*target_addrs).difference(old(self).backends@.to_set()),
            r.0.added@.no_duplicates(),
            r.0.removed@.no_duplicates(),
    {
        let changes = self.update_backends(target_addrs);
        let changed_routes = !same_matches(&self.matches, http_routes);
        if changed_routes {
            self.update_routes(http_routes);
        }
        let rebuild = changes.changed || changed_routes;
        (changes, rebuild)
    }

    /// The route of a request that meets the given match, the first of those that it meets.
    pub fn route_for(&self, matched: Option<usize>) -> (r: Option<u64>)
        requires
            matched matches Some(i) ==> i < self.matches@.len(),
        ensures
            r == match matched {
                Some(i) => Some(self.matches@[i as int].1),
                None => None,
            },
    {
        match matched {
            Some(i) => Some(self.matches[i].1),
            None => None,
        }
    }

    fn update_routes(&mut self, http_routes: &Vec<(u64, u64)>)
        ensures
            final(self).matches@ == http_routes@,
            final(self).backends == old(self).backends,
    {
        let mut matches: Vec<(u64, u64)> = Vec::new();
        let mut i: usize = 0;
        while i < http_routes.len()
            invariant
                i <= http_routes@.len(),
                matches@ =~= http_routes@.take(i as int),
            decreases http_routes@.len() - i,
        {
            matches.push(http_routes[i]);
            i = i + 1;
        }
        proof {
            assert(http_routes@.take(i as int) =~= http_routes@);
        }
        self.matches = matches;
    }
}

proof fn lemma_push_contains(s: Seq<u64>, x: u64)
    ensures
        forall|y: u64| #[trigger] s.push(x).contains(y) <==> s.contains(y) || y == x,
{
    assert forall|y: u64| #[trigger] s.push(x).contains(y) <==> s.contains(y) || y == x by {
        if s.contains(y) {
            let i = choose|i: int| 0 <= i < s.len() && s[i] == y;
            assert(s.push(x)[i] == y);
        }
        if y == x {
            assert(s.push(x)[s.len() as int] == y);
        }
        if s.push(x).contains(y) {
            let i = choose|i: int| 0 <= i < s.push(x).len() && s.push(x)[i] == y;
            if i < s.len() {
                assert(s[i] == y);
            }
        }
    }
}

proof fn lemma_push_unique(s: Seq<u64>, x: u64)
    requires
        s.no_duplicates(),
        !s.contains(x),
    ensures
        s.push(x).no_duplicates(),
{
    assert forall|i: int, j: int|
        0 <= i < s.push(x).len() && 0 <= j < s.push(x).len() && i != j implies s.push(x)[i]
        != s.push(x)[j] by {
        if i == s.len() {
            assert(s[j] != x);
        } else if j == s.len() {
            assert(s[i] != x);
        }
    }
}

} // verus!
