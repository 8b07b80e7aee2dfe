//! The controller's table of running workers, keyed by stream URL.
use vstd::prelude::*;

verus! {

/// `tokio::process::Child`, a worker process; carried through opaquely.
#[verifier::external_type_specification]
#[verifier::external_body]
pub struct ExChild(tokio::process::Child);

/// What `tokio::process::Child::id` reports for a child: the OS process id
/// while the child runs, `None` once it has been polled to completion. Only
/// calls that take the child by `&mut` poll it, so the report is a function of
/// the child's value.
pub uninterp spec fn child_pid(c: tokio::process::Child) -> Option<u32>;

/// The table, and the worker handed back, after recording `child` for `url`:
/// a worker that showed `url` before is replaced and handed back.
pub open spec fn registry_insert(
    table: Map<Seq<char>, tokio::process::Child>,
    url: Seq<char>,
    child: tokio::process::Child,
) -> (Map<Seq<char>, tokio::process::Child>, Option<tokio::process::Child>) {
    (table.insert(url, child), if table.contains_key(url) {
        Some(table[url])
    } else {
        None
    })
}

/// The table, and the worker handed back, after taking `url` out: the worker
/// that showed `url`, if any.
pub open spec fn registry_remove(table: Map<Seq<char>, tokio::process::Child>, url: Seq<char>) -> (
    Map<Seq<char>, tokio::process::Child>,
    Option<tokio::process::Child>,
) {
    (table.remove(url), if table.contains_key(url) {
        Some(table[url])
    } else {
        None
    })
}

/// A running worker and the stream URL it shows.
pub struct WorkerEntry {
    pub url: String,
    pub child: tokio::process::Child,
}

/// The workers of the controller, at most one per stream URL. Its view maps
/// each URL to its worker.
pub struct WorkerRegistry {
    entries: Vec<WorkerEntry>,
    map: Ghost<Map<Seq<char>, tokio::process::Child>>,
}

impl View for WorkerRegistry {
    type V = Map<Seq<char>, tokio::process::Child>;

    closed spec fn view(&self) -> Map<Seq<char>, tokio::process::Child> {
        self.map@
    }
}

impl WorkerRegistry {
    /// The table holds each URL once, and holds exactly the URLs and workers
    /// of its view.
    pub closed spec fn wf(&self) -> bool {
        &&& forall|i: int, j: int|
            0 <= i < j < self.entries@.len() ==> #[trigger] self.entries@[i].url@
                != #[trigger] self.entries@[j].url@
        &&& forall|i: int|
            0 <= i < self.entries@.len() ==> self.map@.contains_key(#[trigger] self.entries@[i].url@)
                && self.map@[self.entries@[i].url@] == self.entries@[i].child
        &&& forall|k: Seq<char>|
            #[trigger] self.map@.contains_key(k) ==> exists|i: int|
                0 <= i < self.entries@.len() && #[trigger] self.entries@[i].url@ == k
    }

    /// The entries, in the table's order.
    pub closed spec fn urls(&self) -> Seq<Seq<char>> {
        self.entries@.map_values(|e: WorkerEntry| e.url@)
    }

    /// An empty table.
    pub fn new() -> (r: WorkerRegistry)
        ensures
            r.wf(),
            r@ == Map::<Seq<char>, tokio::process::Child>::empty(),
    {
        WorkerRegistry { entries: Vec::new(), map: Ghost(Map::empty()) }
    }

    /// The number of workers.
    pub fn len(&self) -> (n: usize)
        requires
            self.wf(),
        ensures
            n == self@.dom().len(),
    {
        proof { self.lemma_len(); }
        self.entries.len()
    }

    proof fn lemma_len(&self)
        requires
            self.wf(),
        ensures
            self.entries@.len() == self@.dom().len(),
            self@.dom().finite(),
        decreases self.entries@.len(),
    {
        let urls = self.urls();
        assert(urls.no_duplicates());
        assert(self@.dom() =~= urls.to_set()) by {
            assert forall|k: Seq<char>| self@.dom().contains(k) implies urls.to_set().contains(k) by {
                let i: int = choose|i: int| 0 <= i < self.entries@.len() && #[trigger] self.entries@[i].url@ == k;
                assert(urls[i] == k);
            }
            assert forall|k: Seq<char>| urls.to_set().contains(k) implies self@.dom().contains(k) by {
                let i: int = choose|i: int| 0 <= i < urls.len() && urls[i] == k;
                assert(self.entries@[i].url@ == k);
            }
        }
        urls.unique_seq_to_set();
    }

    /// The position of `key` in the table, if it is there.
    fn position(&self, key: &String) -> (r: Option<usize>)
        requires
            self.wf(),
        ensures
            match r {
                Some(i) => i < self.entries@.len() && self.entries@[i as int].url@ == key@,
                None => !self@.contains_key(key@),
            },
    {
        let n: usize = self.entries.len();
        let mut i: usize = 0;
        while i < n
            invariant
                n == self.entries@.len(),
                i <= n,
                forall|j: int| 0 <= j < i ==> (#[trigger] self.entries@[j]).url@ != key@,
            decreases n - i,
        {
            if self.entries[i].url == *key {
                return Some(i);
            }
            i = i + 1;
        }
        None
    }

    /// Whether a worker shows `url`.
    pub fn contains(&self, url: &str) -> (b: bool)
        requires
            self.wf(),
        ensures
            b == self@.contains_key(url@),
    {
        let key = url.to_owned();
        match self.position(&key) {
            Some(_) => true,
            None => false,
        }
    }

    /// Records the worker of `url`. A worker that showed `url` before is
    /// replaced and handed back.
    pub fn insert(&mut self, url: String, child: tokio::process::Child) -> (r: Option<
        tokio::process::Child,
    >)
        requires
            old(self).wf(),
        ensures
            final(self).wf(),
            (final(self)@, r) == registry_insert(old(self)@, url@, child),
    {
        let ghost key = url@;
        let found = self.position(&url);
        let prev = match found {
            Some(i) => {
                let e = self.entries.remove(i);
                Some(e.child)
            },
            None => None,
        };
        let ghost mid = self.entries@;
        self.entries.push(WorkerEntry { url, child });
        self.map = Ghost(self.map@.insert(key, child));
        proof {
            let old_e = old(self).entries@;
            let m = self.map@;
            let e = self.entries@;
            let n: int = e.len() - 1;
            assert(e[n].url@ == key);
            // Every entry but the new one is an old one with another URL.
            assert forall|j: int| 0 <= j < n implies #[trigger] e[j].url@ != key && exists|o: int|
                0 <= o < old_e.len() && old_e[o] == e[j] by {
                match found {
                    Some(i) => {
                        if j < i {
                            assert(old_e[j] == e[j]);
                            assert(old_e[j].url@ != old_e[i as int].url@);
                        } else {
                            assert(old_e[j + 1] == e[j]);
                            assert(old_e[j + 1].url@ != old_e[i as int].url@);
                        }
                    },
                    None => {
                        assert(old_e[j] == e[j]);
                        assert(old(self).map@.contains_key(old_e[j].url@));
                    },
                }
            }
            assert forall|i: int, j: int| 0 <= i < j < e.len() implies #[trigger] e[i].url@
                != #[trigger] e[j].url@ by {
                if j < n {
                    match found {
                        Some(x) => {
                            let (oi, oj): (int, int) = if j < x {
                                (i, j)
                            } else if i < x {
                                (i, j + 1)
                            } else {
                                (i + 1, j + 1)
                            };
                            assert(old_e[oi] == e[i] && old_e[oj] == e[j]);
                        },
                        None => {
                            assert(old_e[i] == e[i] && old_e[j] == e[j]);
                        },
                    }
                }
            }
            assert forall|i: int| 0 <= i < e.len() implies m.contains_key(#[trigger] e[i].url@)
                && m[e[i].url@] == e[i].child by {
                if i < n {
                    let o: int = choose|o: int| 0 <= o < old_e.len() && old_e[o] == e[i];
                    assert(old(self).map@.contains_key(old_e[o].url@));
                }
            }
            assert forall|k: Seq<char>| #[trigger] m.contains_key(k) implies exists|i: int|
                0 <= i < e.len() && #[trigger] e[i].url@ == k by {
                if k == key {
                    assert(e[n].url@ == k);
                } else {
                    let o: int = choose|o: int| 0 <= o < old_e.len() && #[trigger] old_e[o].url@ == k;
                    match found {
                        Some(x) => {
                            assert(o != x);
                            if o < x {
                                assert(e[o].url@ == k);
                            } else {
                                assert(e[o - 1].url@ == k);
                            }
                        },
                        None => {
                            assert(e[o].url@ == k);
                        },
                    }
                }
            }
        }
        prev
    }

    /// Takes the worker of `url` out of the table, if there is one.
    pub fn remove(&mut self, url: &str) -> (r: Option<tokio::process::Child>)
        requires
            old(self).wf(),
        ensures
            final(self).wf(),
            (final(self)@, r) == registry_remove(old(self)@, url@),
    {
        let key = url.to_owned();
        match self.position(&key) {
            Some(i) => {
                let e = self.entries.remove(i);
                self.map = Ghost(self.map@.remove(key@));
                proof {
                    let old_e = old(self).entries@;
                    let m = self.map@;
                    let es = self.entries@;
                    assert forall|i2: int, j: int| 0 <= i2 < j < es.len() implies #[trigger] es[i2].url@
                        != #[trigger] es[j].url@ by {
                        let (oi, oj): (int, int) = if j < i {
                            (i2, j)
                        } else if i2 < i {
                            (i2, j + 1)
                        } else {
                            (i2 + 1, j + 1)
                        };
                        assert(old_e[oi] == es[i2] && old_e[oj] == es[j]);
                    }
                    assert forall|j: int| 0 <= j < es.len() implies m.contains_key(#[trigger] es[j].url@)
                        && m[es[j].url@] == es[j].child by {
                        let o: int = if j < i { j } else { j + 1 };
                        assert(old_e[o] == es[j]);
                        assert(old_e[o].url@ != old_e[i as int].url@);
                    }
                    assert forall|k: Seq<char>| #[trigger] m.contains_key(k) implies exists|j: int|
                        0 <= j < es.len() && #[trigger] es[j].url@ == k by {
                        let o: int = choose|o: int| 0 <= o < old_e.len() && #[trigger] old_e[o].url@ == k;
                        assert(o != i);
                        if o < i {
                            assert(es[o].url@ == k);
                        } else {
                            assert(es[o - 1].url@ == k);
                        }
                    }
                }
                Some(e.child)
            },
            None => {
                assert(self.map@.remove(key@) =~= self.map@);
                None
            },
        }
    }

    /// The URLs of the table, each once, with the pid of each worker while it
    /// runs.
    pub fn listing(&self) -> (r: Vec<(String, Option<u32>)>)
        requires
            self.wf(),
        ensures
            r@.len() == self@.dom().len(),
            forall|i: int|
                0 <= i < r@.len() ==> self@.contains_key(#[trigger] r@[i].0@) && r@[i].1 == child_pid(
                    self@[r@[i].0@],
                ),
            forall|i: int, j: int| 0 <= i < j < r@.len() ==> #[trigger] r@[i].0@ != #[trigger] r@[j].0@,
            forall|k: Seq<char>| #[trigger] self@.contains_key(k) ==> exists|i: int|
                0 <= i < r@.len() && #[trigger] r@[i].0@ == k,
    {
        proof { self.lemma_len(); }
        let mut r: Vec<(String, Option<u32>)> = Vec::new();
        let n: usize = self.entries.len();
        for i in 0..n
            invariant
                n == self.entries@.len(),
                self.wf(),
                r@.len() == i,
                forall|j: int|
                    0 <= j < i ==> (#[trigger] r@[j]).0@ == self.entries@[j].url@ && r@[j].1
                        == child_pid(self.entries@[j].child),
        {
            let e = &self.entries[i];
            r.push((e.url.clone(), child_id(&e.child)));
        }
        proof {
            assert forall|i: int, j: int| 0 <= i < j < r@.len() implies #[trigger] r@[i].0@
                != #[trigger] r@[j].0@ by {
                assert(r@[i].0@ == self.entries@[i].url@);
                assert(r@[j].0@ == self.entries@[j].url@);
            }
            assert forall|k: Seq<char>| #[trigger] self@.contains_key(k) implies exists|i: int|
                0 <= i < r@.len() && #[trigger] r@[i].0@ == k by {
                let o: int = choose|o: int| 0 <= o < self.entries@.len() && #[trigger] self.entries@[o].url@ == k;
                assert(r@[o].0@ == k);
            }
        }
        r
    }
}

/// Calls `tokio::process::Child::id`; its result is named `child_pid`.
#[verifier::external_body]
fn child_id(c: &tokio::process::Child) -> (r: Option<u32>)
    ensures
        r == child_pid(*c),
{
    c.id()
}


/// Recording a worker for a URL and then taking that URL out (`insert` then
/// `remove`) hands back the recorded worker and leaves the table as taking the
/// URL out alone would; after a URL is taken out, taking it out again hands
/// back nothing and changes nothing; and a URL is recorded at most once, so
/// recording it again hands back the worker it replaces.
pub proof fn lemma_insert_then_remove(
    table: Map<Seq<char>, tokio::process::Child>,
    url: Seq<char>,
    child: tokio::process::Child,
)
    ensures
        registry_remove(registry_insert(table, url, child).0, url) == (
            registry_remove(table, url).0,
            Some(child),
        ),
        registry_remove(registry_remove(table, url).0, url) == (registry_remove(table, url).0, None::<
            tokio::process::Child,
        >),
        registry_insert(registry_insert(table, url, child).0, url, child).1 == Some(child),
        registry_insert(table, url, child).0.dom() == table.dom().insert(url),
{
    assert(table.insert(url, child).remove(url) =~= table.remove(url));
    assert(table.remove(url).remove(url) =~= table.remove(url));
}


/// Recording a worker: afterwards the URL shows the new worker, every other
/// URL keeps its worker and no URL appears or disappears but this one; what is
/// handed back is the worker the URL showed before, if any. Taking a URL out:
/// afterwards no worker shows it, every other URL keeps its worker, and what is
/// handed back is the worker it showed, if any.
pub proof fn lemma_registry_update_law(
    table: Map<Seq<char>, tokio::process::Child>,
    url: Seq<char>,
    child: tokio::process::Child,
    other: Seq<char>,
)
    requires
        other != url,
    ensures
        registry_insert(table, url, child).0.contains_key(url),
        registry_insert(table, url, child).0[url] == child,
        registry_insert(table, url, child).0.contains_key(other) == table.contains_key(other),
        table.contains_key(other) ==> registry_insert(table, url, child).0[other] == table[other],
        table.contains_key(url) ==> registry_insert(table, url, child).1 == Some(table[url]),
        !table.contains_key(url) ==> registry_insert(table, url, child).1 is None,
        !registry_remove(table, url).0.contains_key(url),
        registry_remove(table, url).0.contains_key(other) == table.contains_key(other),
        table.contains_key(other) ==> registry_remove(table, url).0[other] == table[other],
        table.contains_key(url) ==> registry_remove(table, url).1 == Some(table[url]),
        !table.contains_key(url) ==> registry_remove(table, url).1 is None,
{
}
} // verus!
