//! The buffered adapter: wraps a producer and interposes a push-back /
//! peek-ahead buffer in front of it.

use std::collections::VecDeque;

use vstd::prelude::*;

use crate::laws::peek_at;
use crate::producer::ExactProducer;
use crate::producer::LastProducer;
use crate::producer::Producer;
use crate::producer::ReversibleProducer;

verus! {

/// Relies on std's `VecDeque::shrink_to_fit`: a pure capacity hint, it
/// drops excess capacity and leaves the contents untouched.
#[verifier::external_body]
fn deque_shrink_to_fit<T>(v: &mut VecDeque<T>)
    ensures
        final(v)@ == old(v)@,
{
    v.shrink_to_fit()
}

/// Relies on std's `VecDeque::get_mut`: a mutable reference to the element
/// at index `i`, which is in bounds here, so the call returns `Some`; the
/// other elements stay as they were.
#[verifier::external_body]
fn deque_get_mut<T>(v: &mut VecDeque<T>, i: usize) -> (r: &mut T)
    requires
        i < old(v)@.len(),
    ensures
        *r == old(v)@[i as int],
        final(v)@ == old(v)@.update(i as int, *final(r)),
{
    v.get_mut(i).unwrap()
}

/// A producer with a `push_back(item)` method that re-emits pushed items in
/// last-in, first-out order before the wrapped upstream producer resumes,
/// and with peek operations that read ahead without consuming anything.
///
/// The model of the whole adapter is the sequence `self@`: the buffered
/// items in emission order followed by whatever the upstream producer will
/// still yield.
#[derive(Debug, Clone)]
pub struct PushBackIterator<I: Producer> {
    /// Holds the buffered items in emission order: the front is the item a
    /// forward pull returns next; items pulled ahead from upstream are
    /// appended at the back.
    buffer: VecDeque<I::Item>,
    inner: I,
}

impl<I: Producer> View for PushBackIterator<I> {
    type V = Seq<I::Item>;

    /// The items still to be emitted: the buffer first, then the upstream
    /// producer's remaining items.
    open spec fn view(&self) -> Seq<I::Item> {
        self.buffered() + self.upstream().remaining()
    }
}

impl<I: Producer> PushBackIterator<I> {
    /// The buffered items, in the order forward pulls will emit them.
    pub closed spec fn buffered(&self) -> Seq<I::Item> {
        self.buffer@
    }

    /// The wrapped upstream producer.
    pub closed spec fn upstream(&self) -> I {
        self.inner
    }

    /// Wrap a producer; the buffer starts empty.
    pub fn from(inner: I) -> (r: Self)
        ensures
            r@ == inner.remaining(),
            r.buffered() == Seq::<I::Item>::empty(),
            r.upstream() == inner,
    {
        let r = PushBackIterator { buffer: VecDeque::new(), inner };
        proof {
            assert(r@ =~= r.upstream().remaining());
        }
        r
    }

    /// Push an item back: it becomes the very next item a forward pull
    /// returns, ahead of everything already buffered.
    pub fn push_back(&mut self, item: I::Item)
        ensures
            final(self)@ == seq![item] + old(self)@,
            final(self).buffered() == seq![item] + old(self).buffered(),
            final(self).upstream() == old(self).upstream(),
    {
        self.buffer.push_front(item);
        proof {
            assert(self@ =~= seq![item] + old(self)@);
        }
    }

    /// Pull items ahead from upstream into the buffer until it holds at
    /// least `n + 1` items or upstream is exhausted, and report whether
    /// depth `n` is available. Pulled items stay buffered either way.
    fn fill_to(&mut self, n: usize) -> (ok: bool)
        ensures
            final(self)@ == old(self)@,
            ok <==> n < old(self)@.len(),
            old(self).buffered().len() > n ==> *final(self) == *old(self),
            old(self).buffered().len() <= n && n < old(self)@.len()
                ==> final(self).buffered().len() == n + 1,
            ok ==> n < final(self).buffered().len()
                && final(self).buffered() == old(self)@.take(final(self).buffered().len() as int),
            final(self).upstream().remaining() == old(self)@.skip(
                final(self).buffered().len() as int,
            ),
            !ok ==> final(self).buffered() == old(self)@
                && final(self).upstream().remaining().len() == 0,
    {
        while self.buffer.len() <= n
            invariant
                old(self).buffer@.is_prefix_of(self.buffer@),
                self.buffer@ + self.inner.remaining() == old(self)@,
                old(self).buffer@.len() > n ==> *self == *old(self),
                old(self).buffer@.len() <= n ==> self.buffer@.len() <= n + 1,
            decreases n + 1 - self.buffer@.len(),
        {
            match self.inner.next() {
                Some(x) => {
                    self.buffer.push_back(x);
                    proof {
                        assert(self.buffer@ + self.inner.remaining() =~= old(self)@);
                    }
                },
                None => {
                    proof {
                        assert(self.buffer@ =~= self.buffer@ + self.inner.remaining());
                        assert(self@ =~= old(self)@);
                        assert(self.inner.remaining() =~= old(self)@.skip(
                            self.buffer@.len() as int,
                        ));
                    }
                    return false;
                },
            }
        }
        proof {
            assert(self@ =~= old(self)@);
            assert(self.buffer@ =~= old(self)@.take(self.buffer@.len() as int));
            assert(self.inner.remaining() =~= old(self)@.skip(self.buffer@.len() as int));
        }
        true
    }

    /// Look at the item that `n` forward pulls from now would return, without
    /// consuming anything: items are pulled ahead from upstream into the
    /// buffer as needed, and they stay buffered even when the producer runs
    /// out before depth `n` is reached (no rollback).
    pub fn peek_nth(&mut self, n: usize) -> (r: Option<&I::Item>)
        ensures
            final(self)@ == old(self)@,
            old(self).buffered().len() > n ==> *final(self) == *old(self),
            old(self).buffered().len() <= n && n < old(self)@.len()
                ==> final(self).buffered().len() == n + 1,
            n < old(self)@.len() ==> (r matches Some(v) && *v == old(self)@[n as int]
                && n < final(self).buffered().len()
                && final(self).buffered() == old(self)@.take(final(self).buffered().len() as int)),
            n >= old(self)@.len() ==> (r is None && final(self).buffered() == old(self)@
                && final(self).upstream().remaining().len() == 0),
            match r {
                Some(v) => peek_at(old(self)@, n as int) == Some(*v),
                None => peek_at(old(self)@, n as int) is None,
            },
    {
        if self.fill_to(n) {
            Some(&self.buffer[n])
        } else {
            None
        }
    }

    /// Look at the very next item a forward pull would return, without
    /// consuming it.
    pub fn peek(&mut self) -> (r: Option<&I::Item>)
        ensures
            final(self)@ == old(self)@,
            old(self).buffered().len() > 0 ==> *final(self) == *old(self),
            old(self).buffered().len() == 0 && old(self)@.len() > 0
                ==> final(self).buffered().len() == 1,
            old(self)@.len() > 0 ==> (r matches Some(v) && *v == old(self)@.first()
                && final(self).buffered().len() > 0
                && final(self).buffered() == old(self)@.take(final(self).buffered().len() as int)),
            old(self)@.len() == 0 ==> (r is None && final(self).buffered() == old(self)@
                && final(self).upstream().remaining().len() == 0),
            match r {
                Some(v) => peek_at(old(self)@, 0) == Some(*v),
                None => peek_at(old(self)@, 0) is None,
            },
    {
        self.peek_nth(0)
    }

    /// Like `peek_nth`, but hand out a mutable reference, so the caller can
    /// edit the peeked item in place; it is still not consumed, and is
    /// returned later, edited, by the corresponding forward pull.
    pub fn peek_nth_mut(&mut self, n: usize) -> (r: Option<&mut I::Item>)
        ensures
            old(self).buffered().len() <= n && n < old(self)@.len()
                ==> final(self).buffered().len() == n + 1,
            old(self).buffered().len() > n
                ==> final(self).buffered().len() == old(self).buffered().len(),
            n < old(self)@.len() ==> (r matches Some(v) && *v == old(self)@[n as int]
                && n < final(self).buffered().len()
                && final(self).buffered() == old(self)@.take(
                final(self).buffered().len() as int,
            ).update(n as int, *final(v)) && final(self).upstream().remaining() == old(self)@.skip(
                final(self).buffered().len() as int,
            )),
            n >= old(self)@.len() ==> (r is None && final(self)@ == old(self)@
                && final(self).buffered() == old(self)@
                && final(self).upstream().remaining().len() == 0),
    {
        if self.fill_to(n) {
            Some(deque_get_mut(&mut self.buffer, n))
        } else {
            None
        }
    }

    /// Like `peek`, but hand out a mutable reference to the very next item,
    /// so the caller can edit it in place before pulling it.
    pub fn peek_mut(&mut self) -> (r: Option<&mut I::Item>)
        ensures
            old(self).buffered().len() == 0 && old(self)@.len() > 0
                ==> final(self).buffered().len() == 1,
            old(self).buffered().len() > 0
                ==> final(self).buffered().len() == old(self).buffered().len(),
            old(self)@.len() > 0 ==> (r matches Some(v) && *v == old(self)@.first()
                && final(self).buffered().len() > 0
                && final(self).buffered() == old(self)@.take(
                final(self).buffered().len() as int,
            ).update(0, *final(v)) && final(self).upstream().remaining() == old(self)@.skip(
                final(self).buffered().len() as int,
            )),
            old(self)@.len() == 0 ==> (r is None && final(self)@ == old(self)@
                && final(self).buffered() == old(self)@
                && final(self).upstream().remaining().len() == 0),
    {
        self.peek_nth_mut(0)
    }

    /// Reserve room in the buffer for at least `additional` more items: a
    /// capacity hint with no effect on the items themselves.
    pub fn reserve(&mut self, additional: usize)
        ensures
            final(self)@ == old(self)@,
            final(self).buffered() == old(self).buffered(),
            final(self).upstream() == old(self).upstream(),
    {
        self.buffer.reserve(additional);
    }

    /// Shrink the buffer's capacity as much as possible: a capacity hint
    /// with no effect on the items themselves.
    pub fn shrink_to_fit(&mut self)
        ensures
            final(self)@ == old(self)@,
            final(self).buffered() == old(self).buffered(),
            final(self).upstream() == old(self).upstream(),
    {
        deque_shrink_to_fit(&mut self.buffer);
    }
}

impl<I: Producer> Producer for PushBackIterator<I> {
    type Item = I::Item;

    open spec fn remaining(&self) -> Seq<I::Item> {
        self.view()
    }

    /// The lower size bound: every buffered item plus whatever the upstream
    /// producer promises.
    open spec fn lower_hint(&self) -> nat {
        self.buffered().len() + self.upstream().lower_hint()
    }

    open spec fn upper_hint(&self) -> Option<nat> {
        match self.upstream().upper_hint() {
            Some(u) => Some((self.buffered().len() + u) as nat),
            None => None,
        }
    }

    proof fn hints_sound(&self) {
        self.upstream().hints_sound();
    }

    /// Beyond the producer contract on `self@`: a buffered item is always
    /// returned before upstream is touched, and an empty buffer stays empty.
    fn next(&mut self) -> (r: Option<I::Item>)
        ensures
            old(self).buffered().len() > 0 ==> final(self).buffered() == old(self).buffered().drop_first() && final(self).upstream() == old(self).upstream(),
            old(self).buffered().len() == 0 ==> final(self).buffered().len() == 0,
    {
        let popped = self.buffer.pop_front();
        match popped {
            Some(x) => {
                proof {
                    assert(self@ =~= old(self)@.drop_first());
                }
                Some(x)
            },
            None => {
                let r = self.inner.next();
                proof {
                    assert(self@ =~= self.inner.remaining());
                    assert(old(self)@ =~= old(self).inner.remaining());
                    if old(self)@.len() > 0 {
                        assert(self@ =~= old(self)@.drop_first());
                    }
                }
                r
            },
        }
    }

    fn size_hint(&self) -> (r: (usize, Option<usize>)) {
        let (lower, upper) = self.inner.size_hint();
        let lo = lower + self.buffer.len();
        let up = match upper {
            Some(u) => Some(u + self.buffer.len()),
            None => None,
        };
        (lo, up)
    }

    fn count(self) -> (r: usize) {
        let b = self.buffer.len();
        b + self.inner.count()
    }

    /// Beyond the producer contract on `self@`: a skip that ends inside the
    /// buffered region discards exactly the `n` buffered items nearest to
    /// return and never pulls upstream, while a skip past the buffer
    /// empties it before delegating the rest of the skip upstream.
    fn nth(&mut self, n: usize) -> (r: Option<I::Item>)
        ensures
            n < old(self).buffered().len() ==> final(self).buffered() == old(self).buffered().skip(n + 1) && final(self).upstream() == old(self).upstream(),
            n >= old(self).buffered().len() ==> final(self).buffered().len() == 0,
    {
        if n < self.buffer.len() {
            let kept = self.buffer.split_off(n);
            self.buffer = kept;
            let r = self.buffer.pop_front();
            proof {
                assert(self.buffer@ =~= old(self).buffer@.skip(n + 1));
                assert(self@ =~= old(self)@.skip(n + 1));
            }
            r
        } else {
            let rest = n - self.buffer.len();
            self.buffer.clear();
            let r = self.inner.nth(rest);
            proof {
                assert(self@ =~= self.inner.remaining());
                if n < old(self)@.len() {
                    assert(self@ =~= old(self)@.skip(n + 1));
                }
            }
            r
        }
    }
}

impl<I: ExactProducer> ExactProducer for PushBackIterator<I> {
    proof fn exact_hints(&self) {
        self.upstream().exact_hints();
    }

    fn len(&self) -> (r: usize) {
        self.buffer.len() + self.inner.len()
    }
}

impl<I: ReversibleProducer> ReversibleProducer for PushBackIterator<I> {
    /// Beyond the producer contract on `self@`: reverse pulls drain the
    /// upstream producer first, leaving the buffer untouched; only once it
    /// is exhausted do they take the buffered item that forward pulls would
    /// reach last, and an exhausted adapter keeps both parts as they were.
    fn next_back(&mut self) -> (r: Option<I::Item>)
        ensures
            old(self).upstream().remaining().len() > 0 ==> final(self).buffered() == old(self).buffered() && final(self).upstream().remaining() == old(self).upstream().remaining().drop_last(),
            old(self).upstream().remaining().len() == 0 && old(self).buffered().len() > 0
                ==> final(self).buffered() == old(self).buffered().drop_last()
                && final(self).upstream().remaining() == old(self).upstream().remaining(),
            old(self)@.len() == 0 ==> final(self).buffered() == old(self).buffered() && final(self).upstream().remaining() == old(self).upstream().remaining(),
    {
        let pulled = self.inner.next_back();
        match pulled {
            Some(x) => {
                proof {
                    assert(old(self)@.len() > 0);
                    assert(x == old(self)@.last());
                    assert(self@ =~= old(self)@.drop_last());
                }
                Some(x)
            },
            None => {
                let r = self.buffer.pop_back();
                proof {
                    assert(self@ =~= self.buffer@);
                    assert(old(self)@ =~= old(self).buffer@);
                    if old(self)@.len() > 0 {
                        assert(self@ =~= old(self)@.drop_last());
                        assert(self.buffer@ =~= old(self).buffer@.drop_last());
                    }
                }
                r
            },
        }
    }
}

impl<I: LastProducer> PushBackIterator<I> {
    /// Consume the adapter and return the last item the upstream producer
    /// would have yielded.
    ///
    /// Buffered items are deliberately ignored: a pushed-back or peeked-ahead
    /// item is never the answer, even when the upstream producer is already
    /// exhausted. This asymmetry with `count`, which does include the buffer,
    /// is the adapter's chosen policy.
    pub fn last(self) -> (r: Option<I::Item>)
        ensures
            self.upstream().remaining().len() == 0 ==> r is None,
            self.upstream().remaining().len() > 0 ==> r == Some(
                self.upstream().remaining().last(),
            ),
    {
        let this = self;
        this.inner.last()
    }
}

} // verus!
