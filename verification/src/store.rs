//! The ephemeral values-file store a chart installation writes through: a
//! capability interface whose model is the set of files it holds and the
//! history of writes it performed, and an in-memory implementation for
//! tests. A real implementation keeps the files under the platform's
//! temporary directory.

use vstd::prelude::*;

use crate::data::pairs_map;

verus! {

/// The interface through which a chart installation keeps its temporary
/// values file. `files` maps each stored path to its content; `writes`
/// records every successful write, oldest first.
pub trait ValuesStore: Sized {
    /// The stored files: each path with its content. An implementation
    /// overrides this with its own model.
    open spec fn files(&self) -> Map<Seq<char>, Seq<char>> {
        Map::empty()
    }

    /// Every successful write so far: path and content, oldest first. An
    /// implementation overrides this with its own model.
    open spec fn writes(&self) -> Seq<(Seq<char>, Seq<char>)> {
        Seq::empty()
    }

    /// Store `content` under a file named `name`, returning the full path
    /// of the stored file.
    fn write(&mut self, name: String, content: String) -> (r: Result<String, String>)
        ensures
            r matches Ok(path) ==> final(self).files() == old(self).files().insert(
                path@,
                content@,
            ) && final(self).writes() == old(self).writes().push((path@, content@))
                && name@.is_suffix_of(path@),
            r is Err ==> final(self).files() == old(self).files() && final(self).writes() == old(
                self,
            ).writes(),
    ;

    /// Delete the file stored under `path`, if any. Deletion is
    /// best-effort and total: afterwards the store no longer holds the
    /// path.
    fn remove(&mut self, path: String)
        ensures
            final(self).writes() == old(self).writes(),
            final(self).files() == old(self).files().remove(path@),
    ;
}

/// A pair sequence with every entry under one key dropped.
pub open spec fn without_key(s: Seq<(String, String)>, k: Seq<char>) -> Seq<(String, String)>
    decreases s.len(),
{
    if s.len() == 0 {
        Seq::empty()
    } else if s.last().0@ == k {
        without_key(s.drop_last(), k)
    } else {
        without_key(s.drop_last(), k).push(s.last())
    }
}

/// Dropping every entry under a key removes exactly that key from the
/// map the pairs stand for.
pub proof fn lemma_without_key(s: Seq<(String, String)>, k: Seq<char>)
    ensures
        pairs_map(without_key(s, k)) == pairs_map(s).remove(k),
    decreases s.len(),
{
    if s.len() == 0 {
        assert(pairs_map(without_key(s, k)) =~= pairs_map(s).remove(k));
    } else {
        let s0 = s.drop_last();
        let p = s.last();
        lemma_without_key(s0, k);
        if p.0@ == k {
            assert(pairs_map(s).remove(k) =~= pairs_map(s0).remove(k));
        } else {
            assert(without_key(s, k).drop_last() == without_key(s0, k));
            assert(without_key(s, k).last() == p);
            assert(pairs_map(without_key(s, k)) == pairs_map(without_key(s0, k)).insert(p.0@, p.1@));
            assert(pairs_map(s).remove(k) =~= pairs_map(s0).remove(k).insert(p.0@, p.1@));
        }
    }
}

/// Pair sequences that agree pointwise on their views stand for the same
/// map.
pub proof fn lemma_pairs_map_congruent(a: Seq<(String, String)>, b: Seq<(String, String)>)
    requires
        a.len() == b.len(),
        forall|i: int| 0 <= i < a.len() ==> (#[trigger] a[i]).0@ == b[i].0@ && a[i].1@ == b[i].1@,
    ensures
        pairs_map(a) == pairs_map(b),
    decreases a.len(),
{
    if a.len() == 0 {
        assert(pairs_map(a) =~= pairs_map(b));
    } else {
        lemma_pairs_map_congruent(a.drop_last(), b.drop_last());
        assert(a[a.len() - 1].0@ == b[a.len() - 1].0@ && a[a.len() - 1].1@ == b[a.len() - 1].1@);
        assert(pairs_map(a) =~= pairs_map(b));
    }
}

/// An in-memory `ValuesStore` that keeps every file in a vector of
/// path/content pairs, later entries overriding earlier ones. It never
/// fails, and serves tests that assert on the files an operation leaves
/// behind.
pub struct InMemoryValuesStore {
    pub files: Vec<(String, String)>,
    pub writes: Vec<(String, String)>,
}

impl InMemoryValuesStore {
    /// An empty store with an empty write history.
    pub fn new() -> (r: Self)
        ensures
            r.files() == Map::<Seq<char>, Seq<char>>::empty(),
            r.writes() == Seq::<(Seq<char>, Seq<char>)>::empty(),
    {
        let r = InMemoryValuesStore { files: Vec::new(), writes: Vec::new() };
        proof {
            assert(r.writes@.map_values(|p: (String, String)| (p.0@, p.1@)) =~= Seq::<
                (Seq<char>, Seq<char>),
            >::empty());
        }
        r
    }
}

impl ValuesStore for InMemoryValuesStore {
    open spec fn files(&self) -> Map<Seq<char>, Seq<char>> {
        pairs_map(self.files@)
    }

    open spec fn writes(&self) -> Seq<(Seq<char>, Seq<char>)> {
        self.writes@.map_values(|p: (String, String)| (p.0@, p.1@))
    }

    fn write(&mut self, name: String, content: String) -> (r: Result<String, String>) {
        let path = name.clone();
        self.files.push((name, content.clone()));
        self.writes.push((path.clone(), content));
        proof {
            assert(self.files@.drop_last() == old(self).files@);
            assert(pairs_map(self.files@) == pairs_map(old(self).files@).insert(
                self.files@.last().0@,
                self.files@.last().1@,
            ));
            assert(self.writes@.map_values(|p: (String, String)| (p.0@, p.1@)) =~= old(
                self,
            ).writes@.map_values(|p: (String, String)| (p.0@, p.1@)).push(
                (self.writes@.last().0@, self.writes@.last().1@),
            ));
            assert(path@.is_suffix_of(path@)) by {
                assert(path@.subrange(0, path@.len() as int) =~= path@);
            }
        }
        Ok(path)
    }

    fn remove(&mut self, path: String) {
        let mut kept: Vec<(String, String)> = Vec::new();
        let n = self.files.len();
        for i in 0..n
            invariant
                n == self.files.len(),
                self.files@ == old(self).files@,
                self.writes@ == old(self).writes@,
                kept@.len() == without_key(self.files@.take(i as int), path@).len(),
                forall|j: int|
                    0 <= j < kept@.len() ==> (#[trigger] kept@[j]).0@ == without_key(
                        self.files@.take(i as int),
                        path@,
                    )[j].0@ && kept@[j].1@ == without_key(self.files@.take(i as int), path@)[j].1@,
        {
            let keep = !self.files[i].0.eq(&path);
            let ghost w0 = without_key(self.files@.take(i as int), path@);
            proof {
                assert(self.files@.take(i + 1).drop_last() =~= self.files@.take(i as int));
                assert(self.files@.take(i + 1).last() == self.files@[i as int]);
            }
            if keep {
                let ghost prev = kept@;
                kept.push((self.files[i].0.clone(), self.files[i].1.clone()));
                proof {
                    let w1 = without_key(self.files@.take(i + 1), path@);
                    assert(w1 == w0.push(self.files@[i as int]));
                    assert forall|j: int|
                        0 <= j < kept@.len() implies (#[trigger] kept@[j]).0@ == w1[j].0@
                        && kept@[j].1@ == w1[j].1@ by {
                        if j < prev.len() {
                            assert(kept@[j] == prev[j]);
                            assert(w1[j] == w0[j]);
                        } else {
                            assert(w1[j] == self.files@[i as int]);
                        }
                    }
                }
            } else {
                proof {
                    assert(without_key(self.files@.take(i + 1), path@) == w0);
                }
            }
        }
        proof {
            assert(self.files@.take(n as int) =~= self.files@);
            lemma_pairs_map_congruent(kept@, without_key(self.files@, path@));
            lemma_without_key(self.files@, path@);
        }
        self.files = kept;
    }
}

} // verus!
