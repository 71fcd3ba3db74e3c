//! Touch contacts and the mapping from touch id to contact.

use vstd::prelude::*;
use crate::geom::{LocalPos, PixelPos};

verus! {

/// The lifecycle phase of a touch contact.
#[derive(Clone, Copy, Debug, PartialEq, Eq, Structural)]
pub enum TouchPhase {
    Started,
    Stationary,
    Moved,
    Ended,
    Cancelled,
}

/// One touch contact, with its position in pixels.
#[derive(Clone, Copy, Debug, PartialEq, Eq, Structural)]
pub struct Touch {
    pub id: u64,
    pub phase: TouchPhase,
    pub position: PixelPos,
}

/// One touch contact, with its position in local coordinates.
#[derive(Clone, Copy, Debug, PartialEq, Eq, Structural)]
pub struct LocalTouch {
    pub id: u64,
    pub phase: TouchPhase,
    pub position: LocalPos,
}

/// Whether a contact is still live: an `Ended` or `Cancelled` contact
/// is dropped at the next frame boundary.
pub open spec fn touch_active(t: Touch) -> bool {
    t.phase != TouchPhase::Ended && t.phase != TouchPhase::Cancelled
}

/// The contact with the given id among `s`, if any.
pub open spec fn touch_with_id(s: Seq<Touch>, id: u64) -> Option<Touch>
    decreases s.len(),
{
    if s.len() == 0 {
        None
    } else if s.last().id == id {
        Some(s.last())
    } else {
        touch_with_id(s.drop_last(), id)
    }
}

/// The ids in `s` are pairwise distinct.
pub open spec fn unique_ids(s: Seq<Touch>) -> bool {
    forall|i: int, j: int| 0 <= i < j < s.len() ==> s[i].id != s[j].id
}

/// When no element carries the id, the lookup finds nothing.
pub proof fn lemma_touch_with_id_absent(s: Seq<Touch>, id: u64)
    requires
        forall|i: int| 0 <= i < s.len() ==> s[i].id != id,
    ensures
        touch_with_id(s, id) == None::<Touch>,
    decreases s.len(),
{
    if s.len() > 0 {
        assert(s.last().id != id);
        lemma_touch_with_id_absent(s.drop_last(), id);
    }
}

/// When ids are unique and the element at `i` carries the id, the
/// lookup finds exactly that element.
pub proof fn lemma_touch_with_id_at(s: Seq<Touch>, id: u64, i: int)
    requires
        unique_ids(s),
        0 <= i < s.len(),
        s[i].id == id,
    ensures
        touch_with_id(s, id) == Some(s[i]),
    decreases s.len(),
{
    if i == s.len() - 1 {
        assert(s.last() == s[i]);
    } else {
        assert(s.last().id != id);
        assert(s.drop_last()[i] == s[i]);
        lemma_touch_with_id_at(s.drop_last(), id, i);
    }
}

/// A successful lookup returns an element of the sequence carrying the id.
pub proof fn lemma_touch_with_id_some(s: Seq<Touch>, id: u64, t: Touch)
    requires
        touch_with_id(s, id) == Some(t),
    ensures
        t.id == id,
        exists|i: int| 0 <= i < s.len() && s[i] == t,
    decreases s.len(),
{
    if s.len() > 0 {
        if s.last().id == id {
            assert(s[s.len() - 1] == t);
        } else {
            lemma_touch_with_id_some(s.drop_last(), id, t);
            let i = choose|i: int| 0 <= i < s.drop_last().len() && s.drop_last()[i] == t;
            assert(s[i] == t);
        }
    }
}

/// The touch contacts currently live, keyed by touch id.
pub struct TouchMap {
    pub items: Vec<Touch>,
}

impl TouchMap {
    /// The ids held are pairwise distinct.
    pub open spec fn wf(&self) -> bool {
        unique_ids(self.items@)
    }

    /// The contact with the given id, if any.
    pub open spec fn spec_get(&self, id: u64) -> Option<Touch> {
        touch_with_id(self.items@, id)
    }

    pub fn new() -> (r: TouchMap)
        ensures
            r.items@ == Seq::<Touch>::empty(),
            r.wf(),
            forall|id: u64| r.spec_get(id) == None::<Touch>,
    {
        let r = TouchMap { items: Vec::new() };
        proof {
            assert(r.items@ =~= Seq::<Touch>::empty());
        }
        r
    }

    /// The index of the contact with the given id, if any.
    fn index_of(&self, id: u64) -> (r: Option<usize>)
        requires
            self.wf(),
        ensures
            match r {
                Some(i) => i < self.items@.len() && self.items@[i as int].id == id
                    && self.spec_get(id) == Some(self.items@[i as int]),
                None => self.spec_get(id) == None::<Touch>,
            },
    {
        let mut i: usize = 0;
        while i < self.items.len()
            invariant
                i <= self.items@.len(),
                forall|j: int| 0 <= j < i ==> self.items@[j].id != id,
                self.wf(),
            decreases self.items@.len() - i,
        {
            if self.items[i].id == id {
                proof {
                    lemma_touch_with_id_at(self.items@, id, i as int);
                }
                return Some(i);
            }
            i += 1;
        }
        proof {
            lemma_touch_with_id_absent(self.items@, id);
        }
        None
    }

    /// The contact with the given id, if any.
    pub fn get(&self, id: u64) -> (r: Option<Touch>)
        requires
            self.wf(),
        ensures
            r == self.spec_get(id),
    {
        match self.index_of(id) {
            Some(i) => Some(self.items[i]),
            None => None,
        }
    }

    /// Insert the contact, replacing any earlier contact with the same id.
    pub fn upsert(&mut self, t: Touch)
        requires
            old(self).wf(),
        ensures
            final(self).wf(),
            final(self).spec_get(t.id) == Some(t),
            forall|o: u64| o != t.id ==> final(self).spec_get(o) == old(self).spec_get(o),
    {
        let mut t_slot = t;
        match self.index_of(t.id) {
            Some(i) => {
                core::mem::swap(&mut self.items[i], &mut t_slot);
                proof {
                    let oldseq = old(self).items@;
                    let newseq = self.items@;
                    assert(newseq =~= oldseq.update(i as int, t));
                    assert(forall|j: int|
                        0 <= j < newseq.len() ==> newseq[j].id == oldseq[j].id);
                    assert forall|a: int, b: int| 0 <= a < b < newseq.len()
                        implies newseq[a].id != newseq[b].id by {
                        assert(oldseq[a].id != oldseq[b].id);
                    };
                    lemma_touch_with_id_at(newseq, t.id, i as int);
                    assert forall|o: u64| o != t.id
                        implies touch_with_id(newseq, o) == touch_with_id(oldseq, o) by {
                        match touch_with_id(oldseq, o) {
                            Some(ot) => {
                                lemma_touch_with_id_some(oldseq, o, ot);
                                let j = choose|j: int| 0 <= j < oldseq.len() && oldseq[j] == ot;
                                assert(j != i);
                                assert(newseq[j] == ot);
                                lemma_touch_with_id_at(newseq, o, j);
                            }
                            None => {
                                assert forall|j: int| 0 <= j < newseq.len()
                                    implies newseq[j].id != o by {
                                    if j == i {
                                        assert(newseq[j].id == t.id);
                                    } else if oldseq[j].id == o {
                                        lemma_touch_with_id_at(oldseq, o, j);
                                    }
                                };
                                lemma_touch_with_id_absent(newseq, o);
                            }
                        }
                    };
                }
            }
            None => {
                self.items.push(t);
                proof {
                    let oldseq = old(self).items@;
                    let newseq = self.items@;
                    assert(newseq.drop_last() =~= oldseq);
                    assert(newseq.last() == t);
                    assert forall|a: int, b: int| 0 <= a < b < newseq.len()
                        implies newseq[a].id != newseq[b].id by {
                        if b == oldseq.len() {
                            assert(newseq[a] == oldseq[a]);
                            if oldseq[a].id == t.id {
                                lemma_touch_with_id_at(oldseq, t.id, a);
                            }
                        } else {
                            assert(newseq[a] == oldseq[a]);
                            assert(newseq[b] == oldseq[b]);
                        }
                    };
                    assert forall|o: u64| o != t.id
                        implies touch_with_id(newseq, o) == touch_with_id(oldseq, o) by {
                        assert(newseq.last().id != o);
                    };
                }
            }
        }
    }

    /// Take out the contact with the given id, if present.
    pub fn remove_id(&mut self, id: u64)
        requires
            old(self).wf(),
        ensures
            final(self).wf(),
            final(self).spec_get(id) == None::<Touch>,
            forall|o: u64| o != id ==> final(self).spec_get(o) == old(self).spec_get(o),
    {
        match self.index_of(id) {
            Some(i) => {
                self.items.swap_remove(i);
                proof {
                    let oldseq = old(self).items@;
                    let newseq = self.items@;
                    let last = oldseq.len() - 1;
                    assert(newseq.len() == oldseq.len() - 1);
                    assert(forall|j: int|
                        0 <= j < newseq.len() ==> newseq[j] == (if j == i {
                            oldseq[last]
                        } else {
                            oldseq[j]
                        }));
                    assert forall|a: int, b: int| 0 <= a < b < newseq.len()
                        implies newseq[a].id != newseq[b].id by {
                        if a == i {
                            assert(oldseq[b].id != oldseq[last].id);
                        } else if b == i {
                            assert(oldseq[a].id != oldseq[last].id);
                        } else {
                            assert(oldseq[a].id != oldseq[b].id);
                        }
                    };
                    assert forall|j: int| 0 <= j < newseq.len()
                        implies newseq[j].id != id by {
                        if j == i {
                            assert(newseq[j] == oldseq[last]);
                            assert(i != last);
                            assert(oldseq[i as int].id == id);
                        } else {
                            assert(oldseq[i as int].id == id);
                        }
                    };
                    lemma_touch_with_id_absent(newseq, id);
                    assert forall|o: u64| o != id
                        implies touch_with_id(newseq, o) == touch_with_id(oldseq, o) by {
                        match touch_with_id(oldseq, o) {
                            Some(ot) => {
                                lemma_touch_with_id_some(oldseq, o, ot);
                                let j = choose|j: int| 0 <= j < oldseq.len() && oldseq[j] == ot;
                                assert(j != i);
                                if j < newseq.len() {
                                    assert(newseq[j] == ot);
                                    lemma_touch_with_id_at(newseq, o, j);
                                } else {
                                    assert(j == last);
                                    assert(i < newseq.len());
                                    assert(newseq[i as int] == ot);
                                    lemma_touch_with_id_at(newseq, o, i as int);
                                }
                            }
                            None => {
                                assert forall|j: int| 0 <= j < newseq.len()
                                    implies newseq[j].id != o by {
                                    let srcj = if j == i { last } else { j };
                                    assert(newseq[j] == oldseq[srcj]);
                                    if oldseq[srcj].id == o {
                                        lemma_touch_with_id_at(oldseq, o, srcj);
                                    }
                                };
                                lemma_touch_with_id_absent(newseq, o);
                            }
                        }
                    };
                }
            }
            None => {
            }
        }
    }

    /// Drop every contact whose phase is `Ended` or `Cancelled`; live
    /// contacts are kept unchanged.
    pub fn retain_active(&mut self)
        requires
            old(self).wf(),
        ensures
            final(self).wf(),
            forall|id: u64|
                final(self).spec_get(id) == (match old(self).spec_get(id) {
                    Some(t) => if touch_active(t) { Some(t) } else { None::<Touch> },
                    None => None::<Touch>,
                }),
    {
        let n = self.items.len();
        let mut out: Vec<Touch> = Vec::new();
        let mut i: usize = 0;
        proof {
            assert(self.items@.take(0) =~= Seq::<Touch>::empty());
        }
        while i < n
            invariant
                n == self.items@.len(),
                i <= n,
                self.items@ == old(self).items@,
                unique_ids(self.items@),
                unique_ids(out@),
                forall|id: u64|
                    touch_with_id(out@, id) == (match touch_with_id(
                        self.items@.take(i as int),
                        id,
                    ) {
                        Some(t) => if touch_active(t) { Some(t) } else { None::<Touch> },
                        None => None::<Touch>,
                    }),
            decreases n - i,
        {
            let t = self.items[i];
            let ghost pre = self.items@.take(i as int);
            let ghost post = self.items@.take(i as int + 1);
            let ghost out_pre = out@;
            proof {
                assert(post.drop_last() =~= pre);
                assert(post.last() == t);
                assert forall|j: int| 0 <= j < pre.len() implies pre[j].id != t.id by {
                    assert(self.items@[j].id != self.items@[i as int].id);
                };
                lemma_touch_with_id_absent(pre, t.id);
                assert(touch_with_id(out_pre, t.id) == None::<Touch>);
                assert forall|j: int| 0 <= j < out_pre.len() implies out_pre[j].id != t.id by {
                    if out_pre[j].id == t.id {
                        lemma_touch_with_id_at(out_pre, t.id, j);
                    }
                };
            }
            if t.phase != TouchPhase::Ended && t.phase != TouchPhase::Cancelled {
                out.push(t);
                proof {
                    assert(out@.drop_last() =~= out_pre);
                    assert(out@.last() == t);
                    assert forall|a: int, b: int| 0 <= a < b < out@.len()
                        implies out@[a].id != out@[b].id by {
                        assert(out@[a] == out_pre[a]);
                        if b < out_pre.len() {
                            assert(out@[b] == out_pre[b]);
                        } else {
                            assert(out@[b] == t);
                        }
                    };
                }
            }
            proof {
                assert forall|id: u64|
                    touch_with_id(out@, id) == (match touch_with_id(post, id) {
                        Some(t2) => if touch_active(t2) { Some(t2) } else { None::<Touch> },
                        None => None::<Touch>,
                    }) by {
                    if id == t.id {
                        assert(touch_with_id(post, id) == Some(t));
                        if touch_active(t) {
                            assert(out@.last() == t);
                        } else {
                            assert(out@ == out_pre);
                        }
                    } else {
                        assert(touch_with_id(post, id) == touch_with_id(pre, id));
                        if out@.len() != out_pre.len() {
                            assert(out@.last().id != id);
                            assert(touch_with_id(out@, id) == touch_with_id(out_pre, id));
                        }
                    }
                };
                assert(self.items@.take(i as int + 1) == post);
            }
            i += 1;
        }
        proof {
            assert(self.items@.take(n as int) =~= self.items@);
        }
        self.items = out;
    }

    /// Every contact, in the order held.
    pub fn all(&self) -> (r: Vec<Touch>)
        ensures
            r@ == self.items@,
    {
        let mut r: Vec<Touch> = Vec::new();
        let mut i: usize = 0;
        while i < self.items.len()
            invariant
                i <= self.items@.len(),
                r@ == self.items@.take(i as int),
            decreases self.items@.len() - i,
        {
            r.push(self.items[i]);
            proof {
                assert(r@ =~= self.items@.take(i as int + 1));
            }
            i += 1;
        }
        proof {
            assert(self.items@.take(self.items@.len() as int) =~= self.items@);
        }
        r
    }
}

} // verus!
