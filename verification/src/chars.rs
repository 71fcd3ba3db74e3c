//! The character queue: an ordered, consumable sequence of characters,
//! consumed most-recent-first (a stack).

use vstd::prelude::*;

verus! {

/// Characters queued by character-input events.
pub struct CharQueue {
    pub items: Vec<char>,
}

/// The queue after one character is pushed.
pub open spec fn char_push(q: Seq<char>, c: char) -> Seq<char> {
    q.push(c)
}

/// The queue left behind by one pop: the most recently pushed character
/// leaves; an empty queue is unchanged.
pub open spec fn char_pop_rest(q: Seq<char>) -> Seq<char> {
    if q.len() == 0 {
        q
    } else {
        q.drop_last()
    }
}

/// What one pop returns: the most recently pushed character, or nothing
/// when the queue is empty.
pub open spec fn char_pop_result(q: Seq<char>) -> Option<char> {
    if q.len() == 0 {
        None
    } else {
        Some(q.last())
    }
}

impl CharQueue {
    pub fn new() -> (r: CharQueue)
        ensures
            r.items@ == Seq::<char>::empty(),
    {
        let r = CharQueue { items: Vec::new() };
        proof {
            assert(r.items@ =~= Seq::<char>::empty());
        }
        r
    }

    /// Queue one character.
    pub fn push(&mut self, c: char)
        ensures
            final(self).items@ == char_push(old(self).items@, c),
    {
        self.items.push(c);
    }

    /// Consume and return the most recently queued character; `None`
    /// once the queue is exhausted.
    pub fn pop(&mut self) -> (r: Option<char>)
        ensures
            r == char_pop_result(old(self).items@),
            final(self).items@ == char_pop_rest(old(self).items@),
    {
        let r = self.items.pop();
        proof {
            if old(self).items@.len() > 0 {
                assert(self.items@ =~= old(self).items@.drop_last());
            }
        }
        r
    }
}

/// Law: the queue is a stack. Popping immediately after a push yields
/// exactly the pushed character and restores the queue that was there
/// before the push.
pub proof fn lemma_char_queue_stack_order(q: Seq<char>, c: char)
    ensures
        char_pop_result(char_push(q, c)) == Some(c),
        char_pop_rest(char_push(q, c)) == q,
{
    assert(char_push(q, c).drop_last() =~= q);
}

} // verus!
