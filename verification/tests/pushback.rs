use pushback_iter::ExactProducer;
use pushback_iter::Producer;
use pushback_iter::PushBackIterator;
use pushback_iter::ReversibleProducer;
use pushback_iter::VecProducer;

#[test]
fn push_back() {
    let items = vec![0, 1, 2, 3];
    let mut iter = PushBackIterator::from(VecProducer::new(items));
    assert_eq!(iter.next(), Some(0));
    assert_eq!(iter.next(), Some(1));
    iter.push_back(1);
    assert_eq!(iter.next(), Some(1));
    assert_eq!(iter.next(), Some(2));
    iter.push_back(2);
    iter.push_back(1);
    assert_eq!(iter.next(), Some(1));
    assert_eq!(iter.next(), Some(2));

    assert_eq!(iter.next(), Some(3));
    assert_eq!(iter.next(), None);

    iter.push_back(0);
    assert_eq!(iter.next(), Some(0));
    assert_eq!(iter.next(), None);
}

#[test]
fn peek_nth() {
    let items = vec![0, 1, 2, 3, 4, 5];
    let mut iter = PushBackIterator::from(VecProducer::new(items));
    assert_eq!(iter.peek_nth(2), Some(&2));
    assert_eq!(iter.peek_nth(2), Some(&2));
    assert_eq!(iter.next(), Some(0));
    assert_eq!(iter.peek_nth(2), Some(&3));
    iter.push_back(0);
    assert_eq!(iter.peek_nth(2), Some(&2));
    assert_eq!(iter.next(), Some(0));
    assert_eq!(iter.next(), Some(1));
    assert_eq!(iter.next(), Some(2));
    assert_eq!(iter.next(), Some(3));
}

#[test]
fn lookahead_iterator() {
    let items = vec![0, 1, 2, 3, 4, 5];
    let mut iter = PushBackIterator::from(VecProducer::new(items));

    assert_eq!(iter.next(), Some(0));
    assert_eq!(iter.next(), Some(1));
    assert_eq!(iter.next(), Some(2));

    let mut lookahead = iter.lookahead();
    let mut peeked = Vec::new();
    for _ in 0..2 {
        if let Some(v) = lookahead.next() {
            peeked.push(v);
        }
    }
    assert_eq!(peeked, vec![3, 4]);

    let mut rest = Vec::new();
    while let Some(v) = iter.next() {
        rest.push(v);
    }
    assert_eq!(rest, vec![3, 4, 5]);
}

#[test]
fn peek_is_shallowest_peek() {
    let items = vec![7, 8];
    let mut iter = PushBackIterator::from(VecProducer::new(items));
    assert_eq!(iter.peek(), Some(&7));
    assert_eq!(iter.peek(), Some(&7));
    assert_eq!(iter.next(), Some(7));
    assert_eq!(iter.peek(), Some(&8));
    assert_eq!(iter.next(), Some(8));
    assert_eq!(iter.peek(), None);
    assert_eq!(iter.next(), None);
}

#[test]
fn peek_past_end_keeps_pulled_items() {
    let items = vec![0, 1, 2];
    let mut iter = PushBackIterator::from(VecProducer::new(items));
    assert_eq!(iter.peek_nth(5), None);
    // Everything was pulled into the buffer; nothing was lost.
    assert_eq!(iter.size_hint(), (3, Some(3)));
    assert_eq!(iter.next(), Some(0));
    assert_eq!(iter.next(), Some(1));
    assert_eq!(iter.next(), Some(2));
    assert_eq!(iter.next(), None);
}

#[test]
fn size_hint_counts_buffer_and_upstream() {
    let items = vec![0, 1, 2, 3];
    let mut iter = PushBackIterator::from(VecProducer::new(items));
    assert_eq!(iter.size_hint(), (4, Some(4)));
    assert_eq!(iter.next(), Some(0));
    assert_eq!(iter.size_hint(), (3, Some(3)));
    iter.push_back(0);
    assert_eq!(iter.size_hint(), (4, Some(4)));
    // A deep peek moves items into the buffer but the totals stay the same.
    assert_eq!(iter.peek_nth(3), Some(&3));
    assert_eq!(iter.size_hint(), (4, Some(4)));
    assert_eq!(iter.len(), 4);
}

#[test]
fn count_includes_buffered_items() {
    let items = vec![0, 1, 2, 3];
    let mut iter = PushBackIterator::from(VecProducer::new(items));
    assert_eq!(iter.next(), Some(0));
    iter.push_back(9);
    assert_eq!(iter.peek_nth(2), Some(&2));
    assert_eq!(iter.count(), 4);
}

#[test]
fn last_ignores_buffered_items() {
    let items = vec![1, 2, 3];
    let mut iter = PushBackIterator::from(VecProducer::new(items));
    assert_eq!(iter.next(), Some(1));
    iter.push_back(1);
    // The pushed-back 1 is not the answer: last() asks the upstream producer.
    assert_eq!(iter.last(), Some(3));

    let empty = Vec::new();
    let mut iter = PushBackIterator::from(VecProducer::new(empty));
    iter.push_back(5);
    // The upstream producer is exhausted, so even a buffered item is ignored.
    assert_eq!(iter.last(), None);
}

#[test]
fn nth_within_buffered_region() {
    let items = vec![0, 1, 2, 3, 4];
    let mut iter = PushBackIterator::from(VecProducer::new(items));
    assert_eq!(iter.peek_nth(3), Some(&3));
    // 0, 1 and 2 are discarded from the buffer, 3 is returned.
    assert_eq!(iter.nth(3), Some(3));
    assert_eq!(iter.next(), Some(4));
    assert_eq!(iter.next(), None);
}

#[test]
fn nth_spans_buffer_and_upstream() {
    let items = vec![0, 1, 2, 3, 4, 5];
    let mut iter = PushBackIterator::from(VecProducer::new(items));
    // Buffer 0 and 1, then skip across the buffer boundary into upstream.
    assert_eq!(iter.peek_nth(1), Some(&1));
    assert_eq!(iter.nth(3), Some(3));
    assert_eq!(iter.next(), Some(4));
    assert_eq!(iter.next(), Some(5));
    assert_eq!(iter.next(), None);
}

#[test]
fn nth_past_end_clears_everything() {
    let items = vec![0, 1, 2];
    let mut iter = PushBackIterator::from(VecProducer::new(items));
    iter.push_back(9);
    assert_eq!(iter.nth(4), None);
    assert_eq!(iter.size_hint(), (0, Some(0)));
    assert_eq!(iter.next(), None);
}

#[test]
fn next_back_prefers_upstream_then_oldest_pushed() {
    let items = vec![0, 1, 2, 3];
    let mut iter = PushBackIterator::from(VecProducer::new(items));
    assert_eq!(iter.next(), Some(0));
    assert_eq!(iter.next(), Some(1));
    iter.push_back(1);
    iter.push_back(0);
    assert_eq!(iter.next_back(), Some(3));
    assert_eq!(iter.next_back(), Some(2));
    // Upstream is exhausted: reverse pulls now drain the buffer from the
    // end farthest from the forward side, so the oldest push leaves first.
    assert_eq!(iter.next_back(), Some(1));
    assert_eq!(iter.next_back(), Some(0));
    assert_eq!(iter.next_back(), None);
}

#[test]
fn exhaustion_is_stable_until_push_back() {
    let items: Vec<i32> = Vec::new();
    let mut iter = PushBackIterator::from(VecProducer::new(items));
    assert_eq!(iter.next(), None);
    assert_eq!(iter.next(), None);
    iter.push_back(2);
    iter.push_back(1);
    assert_eq!(iter.next(), Some(1));
    assert_eq!(iter.next(), Some(2));
    assert_eq!(iter.next(), None);
    assert_eq!(iter.next(), None);
}

#[test]
fn capacity_hints_do_not_change_items() {
    let items = vec![0, 1, 2];
    let mut iter = PushBackIterator::from(VecProducer::new(items));
    iter.reserve(100);
    assert_eq!(iter.peek_nth(2), Some(&2));
    iter.shrink_to_fit();
    assert_eq!(iter.next(), Some(0));
    iter.reserve(0);
    assert_eq!(iter.next(), Some(1));
    assert_eq!(iter.next(), Some(2));
    assert_eq!(iter.next(), None);
}

#[test]
fn lookahead_does_not_consume() {
    let items = vec![0, 1, 2, 3];
    let mut iter = PushBackIterator::from(VecProducer::new(items));
    let mut la = iter.lookahead();
    assert_eq!(la.next(), Some(0));
    assert_eq!(la.next(), Some(1));
    assert_eq!(la.next(), Some(2));
    assert_eq!(la.next(), Some(3));
    assert_eq!(la.next(), None);
    // Absence is not sticky state of the view's own: it just keeps asking.
    assert_eq!(la.next(), None);
    // The adapter still holds every item.
    assert_eq!(iter.next(), Some(0));
    assert_eq!(iter.next(), Some(1));
    assert_eq!(iter.next(), Some(2));
    assert_eq!(iter.next(), Some(3));
    assert_eq!(iter.next(), None);
}

#[test]
fn lookahead_sees_buffered_items_first() {
    let items = vec![1, 2];
    let mut iter = PushBackIterator::from(VecProducer::new(items));
    assert_eq!(iter.next(), Some(1));
    iter.push_back(7);
    let mut la = iter.lookahead();
    assert_eq!(la.next(), Some(7));
    assert_eq!(la.next(), Some(2));
    assert_eq!(la.next(), None);
    assert_eq!(iter.next(), Some(7));
    assert_eq!(iter.next(), Some(2));
    assert_eq!(iter.next(), None);
}

#[test]
fn adapters_compose() {
    let items = vec![0, 1, 2];
    let inner = PushBackIterator::from(VecProducer::new(items));
    let mut outer = PushBackIterator::from(inner);
    assert_eq!(outer.next(), Some(0));
    outer.push_back(0);
    assert_eq!(outer.peek_nth(2), Some(&2));
    assert_eq!(outer.size_hint(), (3, Some(3)));
    assert_eq!(outer.next(), Some(0));
    assert_eq!(outer.next(), Some(1));
    assert_eq!(outer.next(), Some(2));
    assert_eq!(outer.next(), None);
}

#[test]
fn peek_mut_edits_upcoming_items() {
    let items = vec![1, 2, 3];
    let mut iter = PushBackIterator::from(VecProducer::new(items));
    if let Some(v) = iter.peek_nth_mut(1) {
        *v = 9;
    }
    assert_eq!(iter.next(), Some(1));
    assert_eq!(iter.next(), Some(9));
    if let Some(v) = iter.peek_mut() {
        *v = 7;
    }
    assert_eq!(iter.next(), Some(7));
    assert_eq!(iter.peek_nth_mut(0), None);
    assert_eq!(iter.peek_mut(), None);
}

#[test]
fn cloned_adapter_is_independent() {
    let items = vec![1, 2, 3];
    let mut iter = PushBackIterator::from(VecProducer::new(items));
    iter.push_back(9);
    let mut copy = iter.clone();
    assert_eq!(iter.next(), Some(9));
    assert_eq!(iter.next(), Some(1));
    assert_eq!(copy.next(), Some(9));
    assert_eq!(copy.next(), Some(1));
    assert_eq!(copy.next(), Some(2));
    assert_eq!(iter.next(), Some(2));
    assert_eq!(iter.next(), Some(3));
    assert_eq!(iter.next(), None);
}
