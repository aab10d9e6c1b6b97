//! The sequence-producer abstraction that the adapter wraps, and a
//! vector-backed producer that implements every capability.

use vstd::prelude::*;

verus! {

/// A single-pass, pull-based source of values.
///
/// `remaining()` is the mathematical model: the exact sequence of items the
/// producer will still yield, in order. Every implementation must keep its
/// operations faithful to that sequence, and a producer that has run out of
/// items stays out of items.
pub trait Producer: Sized {
    /// The type of the values yielded.
    type Item;

    /// The sequence of items this producer will still yield, in order.
    spec fn remaining(&self) -> Seq<Self::Item>;

    /// The lower bound this producer reports from `size_hint`.
    spec fn lower_hint(&self) -> nat;

    /// The upper bound this producer reports from `size_hint`, if it
    /// reports one.
    spec fn upper_hint(&self) -> Option<nat>;

    /// Pull the next item: the head of `remaining`, or `None` once the
    /// producer is exhausted. An exhausted producer stays exhausted.
    fn next(&mut self) -> (r: Option<Self::Item>)
        ensures
            old(self).remaining().len() == 0 ==> r is None && final(self).remaining()
                == old(self).remaining(),
            old(self).remaining().len() > 0 ==> r == Some(old(self).remaining().first())
                && final(self).remaining() == old(self).remaining().drop_first(),
    ;

    /// The reported bounds are honest: the lower bound never exceeds the
    /// true number of items left, and an upper bound, when reported, is
    /// never below it.
    proof fn hints_sound(&self)
        ensures
            self.lower_hint() <= self.remaining().len(),
            self.upper_hint() matches Some(u) ==> self.remaining().len() <= u,
    ;

    /// Report bounds on the number of items left: the lower bound never
    /// exceeds the true count, and an upper bound, when reported, is never
    /// below it.
    fn size_hint(&self) -> (r: (usize, Option<usize>))
        requires
            self.lower_hint() <= usize::MAX,
            self.upper_hint() matches Some(u) ==> u <= usize::MAX,
        ensures
            r.0 == self.lower_hint(),
            self.lower_hint() <= self.remaining().len(),
            r.1 matches Some(u) ==> self.upper_hint() == Some(u as nat)
                && self.remaining().len() <= u,
            r.1 is None <==> self.upper_hint() is None,
    ;

    /// Consume the producer and report how many items were left.
    fn count(self) -> (r: usize)
        requires
            self.remaining().len() <= usize::MAX,
        ensures
            r == self.remaining().len(),
    ;

    /// Skip `n` items and return the one after them; when fewer than `n + 1`
    /// items are left, discard them all and return `None`.
    fn nth(&mut self, n: usize) -> (r: Option<Self::Item>)
        ensures
            n < old(self).remaining().len() ==> r == Some(old(self).remaining()[n as int])
                && final(self).remaining() == old(self).remaining().skip(n + 1),
            n >= old(self).remaining().len() ==> r is None && final(self).remaining().len() == 0,
    ;
}

/// A producer that knows exactly how many items it has left.
pub trait ExactProducer: Producer {
    /// An exact producer's size hints are not just bounds: both are the
    /// true number of items left.
    proof fn exact_hints(&self)
        ensures
            self.lower_hint() == self.remaining().len(),
            self.upper_hint() == Some(self.remaining().len()),
    ;

    /// The exact number of items left.
    fn len(&self) -> (r: usize)
        requires
            self.remaining().len() <= usize::MAX,
        ensures
            r == self.remaining().len(),
    ;
}

/// A producer that can also yield items from its tail end.
pub trait ReversibleProducer: Producer {
    /// Pull the last item: the tail of `remaining`, or `None` once the
    /// producer is exhausted.
    fn next_back(&mut self) -> (r: Option<Self::Item>)
        ensures
            old(self).remaining().len() == 0 ==> r is None && final(self).remaining()
                == old(self).remaining(),
            old(self).remaining().len() > 0 ==> r == Some(old(self).remaining().last())
                && final(self).remaining() == old(self).remaining().drop_last(),
    ;
}

/// A producer that can retrieve its final item without the caller pulling
/// one item at a time.
pub trait LastProducer: Producer {
    /// Consume the producer and return the last item it would have yielded,
    /// or `None` if it was already exhausted.
    fn last(self) -> (r: Option<Self::Item>)
        ensures
            self.remaining().len() == 0 ==> r is None,
            self.remaining().len() > 0 ==> r == Some(self.remaining().last()),
    ;
}

/// A producer backed by a vector, yielding its elements front to back.
/// It supports every optional capability, so it exercises the whole
/// producer contract.
#[derive(Debug, Clone)]
pub struct VecProducer<T> {
    items: Vec<T>,
}

impl<T> VecProducer<T> {
    /// Wrap a vector; the producer will yield exactly its elements in order.
    pub fn new(items: Vec<T>) -> (r: Self)
        ensures
            r.remaining() == items@,
    {
        VecProducer { items }
    }
}

impl<T> Producer for VecProducer<T> {
    type Item = T;

    closed spec fn remaining(&self) -> Seq<T> {
        self.items@
    }

    closed spec fn lower_hint(&self) -> nat {
        self.items@.len()
    }

    closed spec fn upper_hint(&self) -> Option<nat> {
        Some(self.items@.len())
    }

    proof fn hints_sound(&self) {
    }

    fn next(&mut self) -> (r: Option<T>) {
        if self.items.len() > 0 {
            let x = self.items.remove(0);
            proof {
                assert(self.items@ =~= old(self).items@.drop_first());
            }
            Some(x)
        } else {
            None
        }
    }

    fn size_hint(&self) -> (r: (usize, Option<usize>)) {
        (self.items.len(), Some(self.items.len()))
    }

    fn count(self) -> (r: usize) {
        self.items.len()
    }

    fn nth(&mut self, n: usize) -> (r: Option<T>) {
        let mut k: usize = 0;
        while k < n && self.items.len() > 0
            invariant
                k <= n,
                k <= old(self).items@.len(),
                self.items@ == old(self).items@.skip(k as int),
            decreases n - k,
        {
            self.items.remove(0);
            proof {
                assert(self.items@ =~= old(self).items@.skip(k + 1));
            }
            k = k + 1;
        }
        if self.items.len() > 0 {
            let x = self.items.remove(0);
            proof {
                assert(self.items@ =~= old(self).items@.skip(n + 1));
            }
            Some(x)
        } else {
            None
        }
    }
}

impl<T> ExactProducer for VecProducer<T> {
    proof fn exact_hints(&self) {
    }

    fn len(&self) -> (r: usize) {
        self.items.len()
    }
}

impl<T> ReversibleProducer for VecProducer<T> {
    fn next_back(&mut self) -> (r: Option<T>) {
        let r = self.items.pop();
        proof {
            if old(self).items@.len() > 0 {
                assert(self.items@ =~= old(self).items@.drop_last());
            }
        }
        r
    }
}

impl<T> LastProducer for VecProducer<T> {
    fn last(self) -> (r: Option<T>) {
        let mut this = self;
        this.items.pop()
    }
}

} // verus!
