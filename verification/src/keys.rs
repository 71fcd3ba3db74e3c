//! Sets of key codes, with exact set semantics for insertion and removal.

use vstd::prelude::*;

verus! {

/// A set of key codes, stored as a vector without duplicates.
pub struct KeySet {
    pub items: Vec<u64>,
}

impl KeySet {
    /// The mathematical set of keys held.
    pub open spec fn as_set(&self) -> Set<u64> {
        Set::new(|k: u64| self.items@.contains(k))
    }

    /// No key occurs twice in the backing vector.
    pub open spec fn wf(&self) -> bool {
        forall|i: int, j: int|
            0 <= i < j < self.items@.len() ==> self.items@[i] != self.items@[j]
    }

    pub fn new() -> (r: KeySet)
        ensures
            r.as_set() == Set::<u64>::empty(),
            r.wf(),
    {
        let r = KeySet { items: Vec::new() };
        proof {
            assert(r.as_set() =~= Set::<u64>::empty());
        }
        r
    }

    /// Whether the key is in the set.
    pub fn contains(&self, k: u64) -> (r: bool)
        ensures
            r == self.as_set().contains(k),
    {
        let mut i: usize = 0;
        while i < self.items.len()
            invariant
                i <= self.items@.len(),
                forall|j: int| 0 <= j < i ==> self.items@[j] != k,
            decreases self.items@.len() - i,
        {
            if self.items[i] == k {
                proof {
                    assert(self.items@.contains(k)) by {
                        assert(self.items@[i as int] == k);
                    }
                }
                return true;
            }
            i += 1;
        }
        proof {
            assert(!self.items@.contains(k));
        }
        false
    }

    /// Some key of the set, or `None` when it is empty.
    pub fn any(&self) -> (r: Option<u64>)
        ensures
            match r {
                Some(k) => self.as_set().contains(k),
                None => self.as_set() == Set::<u64>::empty(),
            },
    {
        if self.items.len() == 0 {
            proof {
                assert(self.as_set() =~= Set::<u64>::empty());
            }
            None
        } else {
            let k = self.items[0];
            proof {
                assert(self.items@.contains(k)) by {
                    assert(self.items@[0] == k);
                }
            }
            Some(k)
        }
    }

    /// Add the key; the set gains it and keeps everything else.
    pub fn insert(&mut self, k: u64)
        requires
            old(self).wf(),
        ensures
            final(self).as_set() == old(self).as_set().insert(k),
            final(self).wf(),
    {
        if !self.contains(k) {
            self.items.push(k);
            proof {
                let oldseq = old(self).items@;
                assert forall|x: u64| #[trigger] self.items@.contains(x)
                    implies old(self).as_set().insert(k).contains(x) by {
                    let idx = choose|idx: int|
                        0 <= idx < self.items@.len() && self.items@[idx] == x;
                    if idx < oldseq.len() {
                        assert(oldseq[idx] == x);
                    }
                };
                assert forall|x: u64| old(self).as_set().insert(k).contains(x)
                    implies self.items@.contains(x) by {
                    if x == k {
                        assert(self.items@[oldseq.len() as int] == k);
                    } else {
                        let idx = choose|idx: int|
                            0 <= idx < oldseq.len() && oldseq[idx] == x;
                        assert(self.items@[idx] == x);
                    }
                };
                assert(self.as_set() =~= old(self).as_set().insert(k));
                assert forall|i: int, j: int|
                    0 <= i < j < self.items@.len()
                    implies self.items@[i] != self.items@[j] by {
                    if j == oldseq.len() {
                        assert(oldseq[i] == self.items@[i]);
                        assert(!oldseq.contains(k));
                    }
                };
            }
        } else {
            proof {
                assert(self.as_set() =~= old(self).as_set().insert(k));
            }
        }
    }

    /// Take the key out; the set loses it and keeps everything else.
    pub fn remove(&mut self, k: u64)
        requires
            old(self).wf(),
        ensures
            final(self).as_set() == old(self).as_set().remove(k),
            final(self).wf(),
    {
        let mut i: usize = 0;
        while i < self.items.len()
            invariant
                i <= self.items@.len(),
                self.items@ == old(self).items@,
                old(self).wf(),
                forall|j: int| 0 <= j < i ==> self.items@[j] != k,
            decreases self.items@.len() - i,
        {
            if self.items[i] == k {
                self.items.swap_remove(i);
                proof {
                    let oldseq = old(self).items@;
                    let newseq = self.items@;
                    let last = oldseq.len() - 1;
                    assert(newseq.len() == oldseq.len() - 1);
                    assert(forall|idx: int|
                        0 <= idx < newseq.len() ==> newseq[idx] == (if idx == i {
                            oldseq[last]
                        } else {
                            oldseq[idx]
                        }));
                    assert forall|j: int| 0 <= j < oldseq.len() && j != i
                        implies oldseq[j] != k by {
                        if j < i {
                            assert(oldseq[j] != oldseq[i as int]);
                        } else {
                            assert(oldseq[i as int] != oldseq[j]);
                        }
                    };
                    assert forall|x: u64| #[trigger] newseq.contains(x)
                        implies old(self).as_set().remove(k).contains(x) by {
                        let idx = choose|idx: int|
                            0 <= idx < newseq.len() && newseq[idx] == x;
                        if idx == i {
                            assert(oldseq[last] == x);
                            assert(oldseq.contains(x)) by {
                                assert(oldseq[last] == x);
                            }
                            assert(x != k);
                        } else {
                            assert(oldseq[idx] == x);
                            assert(oldseq.contains(x));
                            assert(x != k);
                        }
                    };
                    assert forall|x: u64| old(self).as_set().remove(k).contains(x)
                        implies newseq.contains(x) by {
                        let idx = choose|idx: int|
                            0 <= idx < oldseq.len() && oldseq[idx] == x;
                        assert(idx != i);
                        if idx < newseq.len() {
                            assert(newseq[idx] == x);
                        } else {
                            assert(idx == oldseq.len() - 1);
                            assert(i < newseq.len());
                            assert(newseq[i as int] == x);
                        }
                    };
                    assert(self.as_set() =~= old(self).as_set().remove(k));
                    assert forall|a: int, b: int|
                        0 <= a < b < newseq.len()
                        implies newseq[a] != newseq[b] by {
                        if a == i {
                            assert(newseq[a] == oldseq[oldseq.len() - 1]);
                            assert(newseq[b] == oldseq[b]);
                        } else if b == i {
                            assert(newseq[b] == oldseq[oldseq.len() - 1]);
                            assert(newseq[a] == oldseq[a]);
                        }
                    };
                }
                return;
            }
            i += 1;
        }
        proof {
            assert(!self.items@.contains(k));
            assert(self.as_set() =~= old(self).as_set().remove(k));
        }
    }

    /// Empty the set.
    pub fn clear(&mut self)
        ensures
            final(self).as_set() == Set::<u64>::empty(),
            final(self).wf(),
    {
        self.items.clear();
        proof {
            assert(self.as_set() =~= Set::<u64>::empty());
        }
    }
}

} // verus!
