use vstd::prelude::*;
use vstd::multiset::Multiset;

verus! {

broadcast use vstd::seq_lib::group_to_multiset_ensures;

/// Whether `t` is held by `m` and no token held by `m` is greater.
pub open spec fn is_greatest(m: Multiset<usize>, t: usize) -> bool {
    &&& m.count(t) > 0
    &&& forall|x: usize| #[trigger] m.count(x) > 0 ==> x <= t
}

/// A max-priority queue of tokens: `pop` hands out the greatest token held.
/// Equal tokens may be held more than once.
pub struct TokenHeap {
    items: Vec<usize>,
}

impl View for TokenHeap {
    type V = Multiset<usize>;

    closed spec fn view(&self) -> Multiset<usize> {
        self.items@.to_multiset()
    }
}

impl TokenHeap {
    /// An empty queue.
    pub fn new() -> (h: Self)
        ensures
            h@ == Multiset::<usize>::empty(),
    {
        let h = TokenHeap { items: Vec::new() };
        assert(h.items@.to_multiset() =~= Multiset::empty()) by {
            broadcast use vstd::multiset::group_multiset_axioms;
            assert(h.items@.len() == 0);
        }
        h
    }

    /// Number of tokens held, each counted as often as it is held.
    pub fn len(&self) -> (n: usize)
        ensures
            n == self@.len(),
    {
        self.items.len()
    }

    /// Whether no token is held.
    pub fn is_empty(&self) -> (b: bool)
        ensures
            b == (self@.len() == 0),
    {
        self.items.len() == 0
    }

    /// Adds one more occurrence of `token`.
    pub fn push(&mut self, token: usize)
        ensures
            final(self)@ == old(self)@.insert(token),
    {
        self.items.push(token);
    }

    /// Removes and returns one occurrence of the greatest token held, or
    /// `None` when the queue is empty.
    pub fn pop(&mut self) -> (r: Option<usize>)
        ensures
            match r {
                None => old(self)@.len() == 0 && final(self)@ == old(self)@,
                Some(t) => is_greatest(old(self)@, t) && final(self)@ == old(self)@.remove(t),
            },
    {
        let n = self.items.len();
        if n == 0 {
            return None;
        }
        let mut best: usize = 0;
        let mut i: usize = 1;
        while i < n
            invariant
                n == self.items.len(),
                0 <= best < n,
                1 <= i <= n,
                forall|j: int| 0 <= j < i ==> self.items@[j] <= self.items@[best as int],
            decreases n - i,
        {
            if self.items[i] > self.items[best] {
                best = i;
            }
            i = i + 1;
        }
        let ghost before = self.items@;
        let t = self.items.remove(best);
        proof {
            assert forall|x: usize| #[trigger] before.to_multiset().count(x) > 0 implies x <= t by {
                assert(before.contains(x));
                let j = choose|j: int| 0 <= j < before.len() && before[j] == x;
                assert(before[j] <= before[best as int]);
            }
            assert(before.to_multiset().count(t) > 0) by {
                assert(before[best as int] == t);
                assert(before.contains(t));
            }
        }
        Some(t)
    }
}

/// Popping twice from a queue, with nothing pushed in between, never gives a
/// greater token the second time.
pub proof fn lemma_pop_order(m: Multiset<usize>, a: usize, b: usize)
    requires
        is_greatest(m, a),
        is_greatest(m.remove(a), b),
    ensures
        b <= a,
{
    broadcast use vstd::multiset::group_multiset_axioms;
    assert(m.remove(a).count(b) > 0);
    assert(m.count(b) > 0);
}

/// Every token pushed comes out of the queue once: pushing `t` and popping the
/// greatest token gives back the queue as it was with its greatest token
/// taken out, or `t` itself when `t` is at least as great as all tokens held.
pub proof fn lemma_push_then_pop(m: Multiset<usize>, t: usize, g: usize)
    requires
        is_greatest(m.insert(t), g),
    ensures
        g == t || is_greatest(m, g),
        g == t ==> forall|x: usize| #[trigger] m.count(x) > 0 ==> x <= t,
        m.insert(t).remove(g) == (if g == t { m } else { m.remove(g).insert(t) }),
{
    broadcast use vstd::multiset::group_multiset_axioms;
    if g == t {
        assert(m.insert(t).remove(g) =~= m);
        assert forall|x: usize| #[trigger] m.count(x) > 0 implies x <= t by {
            assert(m.insert(t).count(x) > 0);
        }
    } else {
        assert(m.insert(t).remove(g) =~= m.remove(g).insert(t));
        assert(m.count(g) > 0);
        assert forall|x: usize| #[trigger] m.count(x) > 0 implies x <= g by {
            assert(m.insert(t).count(x) > 0);
        }
    }
}

} // verus!
