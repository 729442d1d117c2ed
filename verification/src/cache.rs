//! The program cache: compile-on-miss, exactly once per resolved path.
//!
//! The cache maps a resolved script path to a shared compiled program.
//! A hit returns the stored program and leaves the cache untouched — the
//! file is neither re-read nor recompiled. A miss compiles the file: on
//! success the program is inserted and shared, on failure nothing is
//! inserted, so a later call for the same path retries. No entry is ever
//! evicted or replaced.

use vstd::prelude::*;
use crate::bindings::compile_file_raw;
use crate::bindings::convert_eval_error;
use crate::bindings::set_ast_source;
use crate::bindings::share;
use crate::errors::ScriptError;
use std::sync::Arc;

verus! {

/// A mapping from resolved script path to the shared compiled program,
/// populated lazily and never evicted.
pub struct ProgramCache {
    entries: Vec<(Vec<u8>, Arc<rhai::AST>)>,
}

/// Compare two byte vectors by contents.
fn bytes_eq(a: &Vec<u8>, b: &Vec<u8>) -> (r: bool)
    ensures
        r == (a@ == b@),
{
    if a.len() != b.len() {
        return false;
    }
    let mut j: usize = 0;
    while j < a.len()
        invariant
            j <= a.len(),
            a@.len() == b@.len(),
            forall|k: int| 0 <= k < j ==> a@[k] == b@[k],
        decreases a.len() - j,
    {
        if a[j] != b[j] {
            return false;
        }
        j = j + 1;
    }
    proof {
        assert(a@ =~= b@);
    }
    true
}

impl View for ProgramCache {
    type V = Map<Seq<u8>, Arc<rhai::AST>>;

    closed spec fn view(&self) -> Map<Seq<u8>, Arc<rhai::AST>> {
        Map::new(
            |k: Seq<u8>|
                exists|i: int| 0 <= i < self.entries@.len() && self.entries@[i].0@ == k,
            |k: Seq<u8>| self.entries@[self.index_of(k)].1,
        )
    }
}

impl ProgramCache {
    /// The position of the entry for key `k`, when one exists.
    closed spec fn index_of(&self, k: Seq<u8>) -> int {
        choose|i: int| 0 <= i < self.entries@.len() && self.entries@[i].0@ == k
    }

    /// Well-formedness: no two entries share a path.
    pub closed spec fn wf(&self) -> bool {
        forall|i: int, j: int|
            0 <= i < j < self.entries@.len() ==> self.entries@[i].0@ != self.entries@[j].0@
    }

    /// An empty cache.
    pub fn new() -> (r: ProgramCache)
        ensures
            r.wf(),
            r@ == Map::<Seq<u8>, Arc<rhai::AST>>::empty(),
    {
        let r = ProgramCache { entries: Vec::new() };
        proof {
            assert(r@ =~= Map::<Seq<u8>, Arc<rhai::AST>>::empty());
        }
        r
    }

    /// The position of the entry for `path`, or `None` when the cache
    /// holds no such entry.
    fn find_idx(&self, path: &Vec<u8>) -> (r: Option<usize>)
        ensures
            match r {
                Some(i) => i < self.entries@.len() && self.entries@[i as int].0@ == path@,
                None => forall|i: int|
                    0 <= i < self.entries@.len() ==> self.entries@[i].0@ != path@,
            },
    {
        let mut j: usize = 0;
        while j < self.entries.len()
            invariant
                j <= self.entries@.len(),
                forall|i: int| 0 <= i < j ==> self.entries@[i].0@ != path@,
            decreases self.entries@.len() - j,
        {
            if bytes_eq(&self.entries[j].0, path) {
                return Some(j);
            }
            j = j + 1;
        }
        None
    }

    /// Fetch the compiled program for `path`, compiling it on a miss.
    ///
    /// On a hit the stored program is returned and the cache is
    /// unchanged: the file is not recompiled. On a miss the file is
    /// compiled through the engine, tagged with its path, inserted and
    /// returned; a compile failure leaves the cache unchanged, so a later
    /// call retries.
    pub fn get_or_compile(&mut self, engine: &rhai::Engine, path: Vec<u8>) -> (r: Result<
        Arc<rhai::AST>,
        ScriptError,
    >)
        requires
            old(self).wf(),
        ensures
            final(self).wf(),
            old(self)@.contains_key(path@) ==> r == Ok::<Arc<rhai::AST>, ScriptError>(
                old(self)@[path@],
            ) && final(self)@ == old(self)@,
            !old(self)@.contains_key(path@) && r is Ok ==> final(self)@ == old(self)@.insert(
                path@,
                r->Ok_0,
            ) && final(self)@[path@] == r->Ok_0,
            r is Err ==> final(self)@ == old(self)@ && crate::errors::no_not_found(r->Err_0),
    {
        match self.find_idx(&path) {
            Some(i) => {
                let a = share(&self.entries[i].1);
                proof {
                    let k = path@;
                    assert(self@.contains_key(k));
                    let j = self.index_of(k);
                    assert(0 <= j < self.entries@.len() && self.entries@[j].0@ == k);
                    if i as int != j {
                        assert(false);
                    }
                    assert(self@[k] == self.entries@[i as int].1);
                }
                Ok(a)
            },
            None => {
                proof {
                    assert(!self@.contains_key(path@));
                }
                match compile_file_raw(engine, &path) {
                    Err(e) => Err(convert_eval_error(e)),
                    Ok(ast) => {
                        let mut ast = ast;
                        set_ast_source(&mut ast, &path);
                        let shared = Arc::new(ast);
                        let ret = share(&shared);
                        let ghost old_cache = *self;
                        let ghost k = path@;
                        self.entries.push((path, shared));
                        proof {
                            assert forall|i: int, j: int|
                                0 <= i < j < self.entries@.len() implies self.entries@[i].0@
                                != self.entries@[j].0@ by {
                                if j < self.entries@.len() - 1 {
                                    assert(old_cache.entries@[i].0@ != old_cache.entries@[j].0@);
                                } else {
                                    assert(old_cache.entries@[i].0@ != k);
                                }
                            }
                            Self::lemma_push_view(old_cache, *self, k, shared);
                        }
                        Ok(ret)
                    },
                }
            },
        }
    }

    /// Law: a path is compiled at most once. After a miss inserts the
    /// program `a` for path `k` into the cache `m`, the cache contains
    /// exactly `a` under `k`; by the hit case of [`Self::get_or_compile`]
    /// every later fetch for `k` then returns `a` and leaves the cache
    /// unchanged — however many times it is repeated, and whatever the
    /// file on disk has meanwhile become.
    pub proof fn lemma_compile_at_most_once(
        m: Map<Seq<u8>, Arc<rhai::AST>>,
        k: Seq<u8>,
        a: Arc<rhai::AST>,
    )
        ensures
            m.insert(k, a).contains_key(k),
            m.insert(k, a)[k] == a,
            m.insert(k, a).insert(k, a) == m.insert(k, a),
    {
        assert(m.insert(k, a).insert(k, a) =~= m.insert(k, a));
    }

    /// Pushing one fresh entry turns the cache's map into the old map
    /// with that key inserted.
    proof fn lemma_push_view(
        old_c: ProgramCache,
        new_c: ProgramCache,
        k: Seq<u8>,
        v: Arc<rhai::AST>,
    )
        requires
            old_c.wf(),
            new_c.wf(),
            new_c.entries@.len() == old_c.entries@.len() + 1,
            forall|i: int| 0 <= i < old_c.entries@.len() ==> new_c.entries@[i] == old_c.entries@[i],
            new_c.entries@[old_c.entries@.len() as int].0@ == k,
            new_c.entries@[old_c.entries@.len() as int].1 == v,
            forall|i: int| 0 <= i < old_c.entries@.len() ==> old_c.entries@[i].0@ != k,
        ensures
            new_c@ == old_c@.insert(k, v),
    {
        let n = old_c.entries@.len() as int;
        assert forall|q: Seq<u8>| #[trigger] new_c@.contains_key(q) implies old_c@.insert(
            k,
            v,
        ).contains_key(q) by {
            let i = choose|i: int|
                0 <= i < new_c.entries@.len() && new_c.entries@[i].0@ == q;
            if i < n {
                assert(old_c.entries@[i].0@ == q);
                assert(old_c@.contains_key(q));
            }
        }
        assert forall|q: Seq<u8>| #[trigger]
            old_c@.insert(k, v).contains_key(q) implies new_c@.contains_key(q) by {
            if q == k {
                assert(new_c.entries@[n].0@ == q);
            } else {
                let i = choose|i: int|
                    0 <= i < old_c.entries@.len() && old_c.entries@[i].0@ == q;
                assert(new_c.entries@[i].0@ == q);
            }
        }
        assert forall|q: Seq<u8>| #[trigger] new_c@.contains_key(q) implies new_c@[q] == old_c@.insert(
            k,
            v,
        )[q] by {
            let i = new_c.index_of(q);
            assert(0 <= i < new_c.entries@.len() && new_c.entries@[i].0@ == q);
            if q == k {
                if i != n {
                    assert(new_c.entries@[i].0@ != new_c.entries@[n].0@);
                    assert(false);
                }
                assert(new_c@[q] == v);
            } else {
                assert(i < n);
                assert(old_c@.contains_key(q));
                let j = old_c.index_of(q);
                assert(0 <= j < n && old_c.entries@[j].0@ == q);
                if i != j {
                    assert(new_c.entries@[j].0@ == q);
                    assert(false);
                }
                assert(new_c@[q] == old_c@[q]);
            }
        }
        assert(new_c@ =~= old_c@.insert(k, v));
    }
}

} // verus!
