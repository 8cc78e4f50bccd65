//! The function registry: an owned, write-once-per-key, read-many mapping
//! from action names to handlers.
//!
//! A second registration under an existing name overwrites the first
//! (last-writer-wins). Entries are never removed. Display order is the
//! insertion order of first registration, recorded by keeping the entries in
//! an ordered sequence with unique names.

use vstd::prelude::*;
use vstd::assert_seqs_equal;
use vstd::assert_sets_equal;
use vstd::map::*;
use vstd::pervasive::VecAdditionalExecFns;

verus! {

/// A recoverable failure of the menu core.
#[derive(Clone, Copy, Debug, PartialEq, Eq, Structural)]
pub enum MenuError {
    /// A name was looked up that was never registered.
    NotFound,
}

/// One registered action: a stable name and its handler.
struct RegistryEntry<H> {
    name: String,
    handler: H,
}

/// The registry: an ordered sequence of entries with pairwise distinct names.
pub struct Registry<H> {
    entries: Vec<RegistryEntry<H>>,
}

impl<H> Registry<H> {
    /// The registered names, in insertion order of first registration.
    pub closed spec fn names_seq(self) -> Seq<Seq<char>> {
        self.entries@.map_values(|e: RegistryEntry<H>| e.name@)
    }

    /// Well-formedness: no name occurs twice.
    pub closed spec fn wf(self) -> bool {
        forall|i: int, j: int|
            0 <= i < j < self.names_seq().len() ==> self.names_seq()[i] != self.names_seq()[j]
    }

    spec fn contains_name(self, n: Seq<char>) -> bool {
        exists|i: int| 0 <= i < self.entries@.len() && self.entries@[i].name@ == n
    }

    spec fn idx_of(self, n: Seq<char>) -> int {
        choose|i: int| 0 <= i < self.entries@.len() && self.entries@[i].name@ == n
    }

    /// The registry as a mapping from names to handlers.
    pub closed spec fn view(self) -> Map<Seq<char>, H> {
        Map::new(|n: Seq<char>| self.contains_name(n), |n: Seq<char>| self.entries@[self.idx_of(n)].handler)
    }

    /// An empty registry.
    pub fn new() -> (r: Self)
        ensures
            r.wf(),
            r@ == Map::<Seq<char>, H>::empty(),
            r.names_seq() == Seq::<Seq<char>>::empty(),
    {
        let r = Registry { entries: Vec::new() };
        proof {
            assert(r.names_seq() =~= Seq::<Seq<char>>::empty());
            assert_maps_equal!(r@, Map::<Seq<char>, H>::empty());
        }
        r
    }

    /// Registers `handler` under `name`, overwriting any earlier handler for
    /// the same name (last-writer-wins). A first registration appends the
    /// name to the display order; an overwrite keeps the order unchanged.
    pub fn insert_into_registry(&mut self, name: String, handler: H)
        requires
            old(self).wf(),
        ensures
            final(self).wf(),
            final(self)@ == old(self)@.insert(name@, handler),
            old(self)@.dom().contains(name@) ==> final(self).names_seq() == old(self).names_seq(),
            !old(self)@.dom().contains(name@) ==> final(self).names_seq() == old(self).names_seq().push(
                name@,
            ),
    {
        let n = self.entries.len();
        let mut i: usize = 0;
        while i < n
            invariant
                old(self).wf(),
                n == self.entries@.len(),
                i <= n,
                *self == *old(self),
                forall|k: int| 0 <= k < i ==> self.entries@[k].name@ != name@,
            decreases n - i,
        {
            if self.entries[i].name == name {
                let replaced = RegistryEntry { name, handler };
                self.entries.set(i, replaced);
                proof {
                    lemma_view_after_overwrite(*old(self), *self, name@, i as int);
                }
                return;
            }
            i += 1;
        }
        self.entries.push(RegistryEntry { name, handler });
        proof {
            lemma_view_after_append(*old(self), *self, name@);
        }
    }

    /// Looks the handler for `name` up. Returns `NotFound`, never panics,
    /// when `name` was never registered.
    pub fn get_fun(&self, name: &str) -> (r: Result<&H, MenuError>)
        requires
            self.wf(),
        ensures
            r is Ok <==> self@.dom().contains(name@),
            r matches Ok(h) ==> *h == self@[name@],
            r matches Err(e) ==> e == MenuError::NotFound,
    {
        let key: String = name.to_owned();
        let n = self.entries.len();
        let mut i: usize = 0;
        while i < n
            invariant
                self.wf(),
                n == self.entries@.len(),
                i <= n,
                key@ == name@,
                forall|k: int| 0 <= k < i ==> self.entries@[k].name@ != name@,
            decreases n - i,
        {
            if self.entries[i].name == key {
                proof {
                    assert(self.contains_name(name@));
                    let w = self.idx_of(name@);
                    assert(self.names_seq()[w] == self.entries@[w].name@);
                    assert(self.names_seq()[i as int] == self.entries@[i as int].name@);
                    assert(w == i as int);
                }
                return Ok(&self.entries[i].handler);
            }
            i += 1;
        }
        proof {
            assert(!self.contains_name(name@));
        }
        Err(MenuError::NotFound)
    }

    /// A snapshot of all registered names, in insertion order, without
    /// duplicates: exactly the set of names currently registered.
    pub fn names(&self) -> (r: Vec<String>)
        requires
            self.wf(),
        ensures
            r@.map_values(|s: String| s@) == self.names_seq(),
            forall|i: int, j: int| 0 <= i < j < r@.len() ==> r@[i]@ != r@[j]@,
            r@.map_values(|s: String| s@).to_set() == self@.dom(),
    {
        let n = self.entries.len();
        let mut out: Vec<String> = Vec::new();
        let mut i: usize = 0;
        while i < n
            invariant
                n == self.entries@.len(),
                i <= n,
                out@.len() == i,
                forall|k: int| 0 <= k < i ==> out@[k]@ == self.entries@[k].name@,
            decreases n - i,
        {
            out.push(self.entries[i].name.clone());
            i += 1;
        }
        proof {
            assert_seqs_equal!(out@.map_values(|s: String| s@) == self.names_seq());
            assert forall|i: int, j: int| 0 <= i < j < out@.len() implies out@[i]@ != out@[j]@ by {
                assert(self.names_seq()[i] == out@[i]@);
                assert(self.names_seq()[j] == out@[j]@);
            }
            let mapped = out@.map_values(|s: String| s@);
            assert_sets_equal!(mapped.to_set() == self@.dom(), n => {
                if mapped.to_set().contains(n) {
                    assert(mapped.contains(n));
                    let w = mapped.index_of(n);
                    assert(0 <= w < mapped.len() && mapped[w] == n);
                    assert(self.entries@[w].name@ == n);
                }
                if self@.dom().contains(n) {
                    let w = self.idx_of(n);
                    assert(mapped[w] == n);
                    assert(mapped.contains(n));
                }
            });
        }
        out
    }
}

/// Last-writer-wins: registering `f1` and then `f2` under the same name
/// leaves the registry exactly as if only `f2` had been registered, and a
/// lookup of that name yields `f2`.
pub proof fn lemma_last_writer_wins<H>(m: Map<Seq<char>, H>, name: Seq<char>, f1: H, f2: H)
    ensures
        m.insert(name, f1).insert(name, f2) == m.insert(name, f2),
        m.insert(name, f1).insert(name, f2)[name] == f2,
{
    assert_maps_equal!(m.insert(name, f1).insert(name, f2), m.insert(name, f2));
}

proof fn lemma_view_after_overwrite<H>(pre: Registry<H>, post: Registry<H>, name: Seq<char>, i: int)
    requires
        pre.wf(),
        0 <= i < pre.entries@.len(),
        pre.entries@[i].name@ == name,
        post.entries@.len() == pre.entries@.len(),
        post.entries@[i].name@ == name,
        forall|k: int| 0 <= k < pre.entries@.len() && k != i ==> post.entries@[k] == pre.entries@[k],
    ensures
        post.wf(),
        post@ == pre@.insert(name, post.entries@[i].handler),
        post.names_seq() == pre.names_seq(),
        pre@.dom().contains(name),
{
    assert_seqs_equal!(post.names_seq() == pre.names_seq());
    assert(pre.contains_name(name));
    assert_maps_equal!(post@, pre@.insert(name, post.entries@[i].handler), n => {
        if post.contains_name(n) {
            let w = post.idx_of(n);
            assert(0 <= w < post.entries@.len() && post.entries@[w].name@ == n);
            assert(pre.entries@[w].name@ == n);
            assert(pre.contains_name(n));
        }
        if pre.contains_name(n) {
            let w = pre.idx_of(n);
            assert(0 <= w < pre.entries@.len() && pre.entries@[w].name@ == n);
            assert(post.entries@[w].name@ == n);
            assert(post.contains_name(n));
        }
        if post.contains_name(n) {
            let w = post.idx_of(n);
            let v = pre.idx_of(n);
            assert(post.names_seq()[w] == n && post.names_seq()[v] == n);
            assert(w == v);
            if n == name {
                assert(post.names_seq()[w] == n && post.names_seq()[i] == n);
                assert(w == i);
            } else {
                assert(post.names_seq()[w] == n && post.names_seq()[i] == name);
                assert(w != i);
                assert(post.entries@[w] == pre.entries@[w]);
            }
        }
    });
}

proof fn lemma_view_after_append<H>(pre: Registry<H>, post: Registry<H>, name: Seq<char>)
    requires
        pre.wf(),
        !pre.contains_name(name),
        post.entries@.len() == pre.entries@.len() + 1,
        post.entries@[pre.entries@.len() as int].name@ == name,
        forall|k: int| 0 <= k < pre.entries@.len() ==> post.entries@[k] == pre.entries@[k],
    ensures
        post.wf(),
        post@ == pre@.insert(name, post.entries@[pre.entries@.len() as int].handler),
        post.names_seq() == pre.names_seq().push(name),
        !pre@.dom().contains(name),
{
    let m = pre.entries@.len() as int;
    assert_seqs_equal!(post.names_seq() == pre.names_seq().push(name));
    assert forall|i: int, j: int|
        0 <= i < j < post.names_seq().len() implies post.names_seq()[i] != post.names_seq()[j] by {
        if j < m {
            assert(pre.names_seq()[i] != pre.names_seq()[j]);
        } else {
            assert(post.names_seq()[j] == name);
            assert(post.names_seq()[i] == pre.entries@[i].name@);
            if pre.entries@[i].name@ == name {
                assert(pre.contains_name(name));
            }
        }
    }
    assert_maps_equal!(post@, pre@.insert(name, post.entries@[m].handler), n => {
        if post.contains_name(n) && n != name {
            let w = post.idx_of(n);
            assert(0 <= w < post.entries@.len() && post.entries@[w].name@ == n);
            assert(w != m);
            assert(pre.entries@[w].name@ == n);
            assert(pre.contains_name(n));
        }
        if pre.contains_name(n) {
            let w = pre.idx_of(n);
            assert(post.entries@[w].name@ == n);
            assert(post.contains_name(n));
        }
        assert(post.contains_name(name));
        if post.contains_name(n) {
            let w = post.idx_of(n);
            if n == name {
                assert(post.names_seq()[w] == n && post.names_seq()[m] == name);
                assert(w == m);
            } else {
                let v = pre.idx_of(n);
                assert(post.names_seq()[w] == n && post.names_seq()[v] == n);
                assert(w == v);
                assert(post.entries@[w] == pre.entries@[w]);
            }
        }
    });
}

} // verus!
