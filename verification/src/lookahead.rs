//! The lookahead view: a transient handle that scans upcoming items of a
//! borrowed adapter without consuming any of them.

use vstd::prelude::*;

use crate::adapter::PushBackIterator;
use crate::producer::Producer;

verus! {

/// A view that peeks successive items of a borrowed [`PushBackIterator`]
/// without consuming them.
///
/// Each step hands out an owned duplicate of the peeked item, which is why
/// the item type must be `Clone`: a reference into the buffer could not
/// outlive the next step, since deeper peeks may grow the buffer. The only
/// state beyond the exclusive borrow is a monotonic position counter, and
/// the borrowed adapter's emission sequence is never changed — items peeked
/// ahead stay buffered for the adapter's own forward pulls.
///
/// Every step's contract pins the borrowed adapter: its emission sequence
/// is unchanged and its buffer only grows. The fields are public so that
/// those facts survive the borrow: `lookahead` promises that the adapter's
/// value after the borrow ends is the final value behind `inner`, each step
/// preserves that final value, and once the view is resolved its current
/// target equals it — so a caller can prove that a scan consumed nothing.
pub struct LookaheadIterator<'i, I: Producer> {
    /// The exclusive borrow of the adapter being scanned.
    pub inner: &'i mut PushBackIterator<I>,
    /// How many lookahead steps have been taken.
    pub pos: usize,
}

impl<I: Producer> PushBackIterator<I> {
    /// Create a lookahead view over this adapter, starting at its current
    /// forward-pull position.
    pub fn lookahead(&mut self) -> (r: LookaheadIterator<'_, I>) where I::Item: Clone
        ensures
            r.pos() == 0,
            r.target() == *old(self),
            *final(self) == *final(r.inner),
    {
        LookaheadIterator { inner: self, pos: 0 }
    }
}

impl<'i, I: Producer> LookaheadIterator<'i, I> {
    /// How many lookahead steps this view has taken.
    pub open spec fn pos(&self) -> nat {
        self.pos as nat
    }

    /// The current value of the borrowed adapter.
    pub open spec fn target(&self) -> PushBackIterator<I> {
        *self.inner
    }
}

impl<'i, I: Producer> LookaheadIterator<'i, I> where I::Item: Clone {
    /// Duplicate the item `pos` steps ahead of the adapter's current
    /// position, or report absence when the adapter is exhausted at that
    /// depth, and advance by one step either way. The adapter's emission
    /// sequence is left exactly as it was.
    pub fn next(&mut self) -> (r: Option<I::Item>)
        requires
            old(self).pos() < usize::MAX,
        ensures
            final(self).pos() == old(self).pos() + 1,
            final(self).target()@ == old(self).target()@,
            *final(final(self).inner) == *final(old(self).inner),
            old(self).target().buffered().is_prefix_of(final(self).target().buffered()),
            final(self).target().upstream().remaining() == old(self).target()@.skip(
                final(self).target().buffered().len() as int,
            ),
            old(self).pos() < old(self).target()@.len() ==> (r matches Some(v) && cloned(
                old(self).target()@[old(self).pos() as int],
                v,
            )),
            old(self).pos() >= old(self).target()@.len() ==> r is None,
    {
        proof {
            assert(old(self).target().buffered() =~= old(self).target()@.take(
                old(self).target().buffered().len() as int,
            ));
        }
        let peeked = self.inner.peek_nth(self.pos);
        let r = match peeked {
            Some(v) => Some(v.clone()),
            None => None,
        };
        self.pos = self.pos + 1;
        r
    }
}

} // verus!
