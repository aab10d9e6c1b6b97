//! General laws of the adapter, stated over the emission-sequence model that
//! every operation's contract uses, and proved once for all inputs.
//!
//! The model: an adapter's state is its emission sequence `self@`.
//! `push_back` prepends the pushed item (its `ensures`), and `next` returns
//! the head and drops it, or reports absence and leaves an empty sequence
//! unchanged (its `ensures`). The spec functions below iterate those two
//! single-step contracts, so each law below speaks about whole runs of calls.

use vstd::prelude::*;

use crate::adapter::PushBackIterator;
use crate::producer::Producer;

verus! {

/// Size accounting: the adapter's reported lower size bound is always the
/// buffer length plus the upstream producer's own lower bound, and it never
/// exceeds the true number of remaining items.
pub proof fn lemma_size_accounting<I: Producer>(a: PushBackIterator<I>)
    ensures
        a.lower_hint() == a.buffered().len() + a.upstream().lower_hint(),
        a.lower_hint() <= a@.len(),
{
    a.hints_sound();
}

/// The emission sequence after pushing each item of `items` back in order
/// onto an adapter whose emission sequence is `s`: each push prepends, as
/// `push_back` ensures.
pub open spec fn after_pushes<T>(s: Seq<T>, items: Seq<T>) -> Seq<T>
    decreases items.len(),
{
    if items.len() == 0 {
        s
    } else {
        after_pushes(seq![items.first()] + s, items.drop_first())
    }
}

/// The values that a run of `m` forward pulls returns from an adapter whose
/// emission sequence is `s`: each pull takes the head, as `next` ensures,
/// and an exhausted adapter yields nothing.
pub open spec fn pulled_values<T>(s: Seq<T>, m: nat) -> Seq<T>
    decreases m,
{
    if m == 0 || s.len() == 0 {
        Seq::<T>::empty()
    } else {
        seq![s.first()] + pulled_values(s.drop_first(), (m - 1) as nat)
    }
}

/// The emission sequence left after a run of `m` forward pulls.
pub open spec fn after_pulls<T>(s: Seq<T>, m: nat) -> Seq<T>
    decreases m,
{
    if m == 0 || s.len() == 0 {
        s
    } else {
        after_pulls(s.drop_first(), (m - 1) as nat)
    }
}

/// The value that a peek at depth `n` into emission sequence `s` returns,
/// as `peek_nth` ensures: the item `n` pulls away, or absence when the
/// sequence is shorter than that.
pub open spec fn peek_at<T>(s: Seq<T>, n: int) -> Option<T> {
    if 0 <= n < s.len() {
        Some(s[n])
    } else {
        None
    }
}

/// A run of pulls returns exactly the leading items of the emission
/// sequence, in order, and leaves the rest; pulling more than is there
/// returns everything and leaves nothing.
pub proof fn lemma_pulls_are_prefix<T>(s: Seq<T>, m: nat)
    ensures
        m <= s.len() ==> pulled_values(s, m) == s.take(m as int) && after_pulls(s, m) == s.skip(
            m as int,
        ),
        m > s.len() ==> pulled_values(s, m) == s && after_pulls(s, m) == Seq::<T>::empty(),
    decreases m,
{
    if m == 0 {
        assert(pulled_values(s, m) =~= s.take(0));
        assert(after_pulls(s, m) =~= s.skip(0));
    } else if s.len() == 0 {
        assert(pulled_values(s, m) =~= s);
        assert(after_pulls(s, m) =~= Seq::<T>::empty());
    } else {
        lemma_pulls_are_prefix(s.drop_first(), (m - 1) as nat);
        if m <= s.len() {
            assert(seq![s.first()] + s.drop_first().take(m - 1) =~= s.take(m as int));
            assert(s.drop_first().skip(m - 1) =~= s.skip(m as int));
        } else {
            assert(seq![s.first()] + s.drop_first() =~= s);
        }
    }
}

/// Push/pull LIFO law: after pushing the items of `items` back in order,
/// the adapter emits them most-recently-pushed first; a run of pulls
/// returns exactly the pushed items in reverse push order, and once they
/// are gone pulls resume with the sequence as it stood before the pushes.
pub proof fn lemma_push_pull_lifo<T>(s: Seq<T>, items: Seq<T>)
    ensures
        after_pushes(s, items) == items.reverse() + s,
        pulled_values(after_pushes(s, items), items.len()) == items.reverse(),
        after_pulls(after_pushes(s, items), items.len()) == s,
    decreases items.len(),
{
    if items.len() == 0 {
        assert(items.reverse() + s =~= s);
        assert(after_pushes(s, items) =~= items.reverse() + s);
    } else {
        lemma_push_pull_lifo(seq![items.first()] + s, items.drop_first());
        assert(items.drop_first().reverse() + seq![items.first()] =~= items.reverse());
        assert(items.drop_first().reverse() + (seq![items.first()] + s) =~= items.reverse() + s);
    }
    lemma_pulls_are_prefix(items.reverse() + s, items.len());
    assert((items.reverse() + s).take(items.len() as int) =~= items.reverse());
    assert((items.reverse() + s).skip(items.len() as int) =~= s);
}

/// Peek idempotence: a peek leaves the emission sequence unchanged (as
/// `peek_nth` ensures), so two consecutive peeks at the same depth with no
/// mutating call between them read equal sequences and return the same
/// value.
pub proof fn lemma_peek_idempotent<T>(s1: Seq<T>, s2: Seq<T>, n: int)
    requires
        s1 == s2,
    ensures
        peek_at(s1, n) == peek_at(s2, n),
{
}

/// Peek/pull consistency: the value peeked at depth `k` is exactly the
/// value the `(k + 1)`-th of `k + 1` consecutive forward pulls returns, and
/// the `k` pulls before it are unaffected by how deep the peek went.
pub proof fn lemma_peek_pull_consistent<T>(s: Seq<T>, k: nat)
    requires
        k < s.len(),
    ensures
        pulled_values(s, k + 1).len() == k + 1,
        peek_at(s, k as int) == Some(pulled_values(s, k + 1).last()),
        pulled_values(s, k + 1).take(k as int) == pulled_values(s, k),
{
    lemma_pulls_are_prefix(s, k + 1);
    lemma_pulls_are_prefix(s, k);
    assert(s.take(k as int + 1).take(k as int) =~= s.take(k as int));
}

/// Exhaustion stability: an adapter whose emission sequence is empty
/// reports absence on every pull of any run and stays empty, until items
/// are pushed back; after that, pulls return exactly the pushed items,
/// most recent first, and then absence resumes.
pub proof fn lemma_exhaustion_stable<T>(items: Seq<T>, m: nat)
    ensures
        pulled_values(Seq::<T>::empty(), m) == Seq::<T>::empty(),
        after_pulls(Seq::<T>::empty(), m) == Seq::<T>::empty(),
        after_pushes(Seq::<T>::empty(), items) == items.reverse(),
        pulled_values(after_pushes(Seq::<T>::empty(), items), items.len()) == items.reverse(),
        after_pulls(after_pushes(Seq::<T>::empty(), items), items.len()) == Seq::<T>::empty(),
{
    lemma_push_pull_lifo(Seq::<T>::empty(), items);
    assert(items.reverse() + Seq::<T>::empty() =~= items.reverse());
}

} // verus!
