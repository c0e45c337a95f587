use vstd::prelude::*;

verus! {

/// What a forward pull on `s` hands out: its first element, or nothing when
/// `s` is used up.
pub open spec fn front<A>(s: Seq<A>) -> Option<A> {
    if s.len() == 0 {
        None
    } else {
        Some(s[0])
    }
}

/// What is left of `s` after one forward pull.
pub open spec fn after_front<A>(s: Seq<A>) -> Seq<A> {
    if s.len() == 0 {
        s
    } else {
        s.drop_first()
    }
}

/// What a backward pull on `s` hands out: its last element, or nothing when
/// `s` is used up.
pub open spec fn back<A>(s: Seq<A>) -> Option<A> {
    if s.len() == 0 {
        None
    } else {
        Some(s.last())
    }
}

/// What is left of `s` after one backward pull.
pub open spec fn after_back<A>(s: Seq<A>) -> Seq<A> {
    if s.len() == 0 {
        s
    } else {
        s.drop_last()
    }
}

/// What is left of `s` after `n` forward pulls.
pub open spec fn pulled_front_n<A>(s: Seq<A>, n: nat) -> Seq<A>
    decreases n,
{
    if n == 0 {
        s
    } else {
        after_front(pulled_front_n(s, (n - 1) as nat))
    }
}

/// What is left of `s` after `n` backward pulls.
pub open spec fn pulled_back_n<A>(s: Seq<A>, n: nat) -> Seq<A>
    decreases n,
{
    if n == 0 {
        s
    } else {
        after_back(pulled_back_n(s, (n - 1) as nat))
    }
}

/// Pulling forward yields the elements in order: the pull after `i` others
/// hands out the element at `i`, and once all are out every pull hands out
/// nothing.
pub proof fn lemma_forward_pulls<A>(s: Seq<A>, n: nat)
    ensures
        n <= s.len() ==> pulled_front_n(s, n) == s.skip(n as int),
        n >= s.len() ==> pulled_front_n(s, n).len() == 0,
        n < s.len() ==> front(pulled_front_n(s, n)) == Some(s[n as int]),
        n >= s.len() ==> front(pulled_front_n(s, n)) is None,
    decreases n,
{
    if n > 0 {
        lemma_forward_pulls(s, (n - 1) as nat);
        if n <= s.len() {
            assert(pulled_front_n(s, n) =~= s.skip(n as int));
        }
    } else {
        assert(s.skip(0) =~= s);
    }
}

/// Pulling backward yields the elements in reverse order: the pull after `i`
/// others hands out the element at `len - 1 - i`, and once all are out every
/// pull hands out nothing.
pub proof fn lemma_backward_pulls<A>(s: Seq<A>, n: nat)
    ensures
        n <= s.len() ==> pulled_back_n(s, n) == s.take(s.len() - n),
        n >= s.len() ==> pulled_back_n(s, n).len() == 0,
        n < s.len() ==> back(pulled_back_n(s, n)) == Some(s[s.len() - 1 - n]),
        n >= s.len() ==> back(pulled_back_n(s, n)) is None,
    decreases n,
{
    if n > 0 {
        lemma_backward_pulls(s, (n - 1) as nat);
        if n <= s.len() {
            assert(pulled_back_n(s, n) =~= s.take(s.len() - n));
        }
    } else {
        assert(s.take(s.len() as int) =~= s);
    }
}

/// How many of the pulls in `dirs` are forward pulls (`true`); the others
/// are backward pulls.
pub open spec fn forward_count(dirs: Seq<bool>) -> nat
    decreases dirs.len(),
{
    if dirs.len() == 0 {
        0
    } else {
        forward_count(dirs.drop_last()) + if dirs.last() {
            1nat
        } else {
            0nat
        }
    }
}

/// What is left of `s` after the pulls in `dirs`, in order: forward where
/// the entry is `true`, backward where it is `false`.
pub open spec fn pulled_mixed<A>(s: Seq<A>, dirs: Seq<bool>) -> Seq<A>
    decreases dirs.len(),
{
    if dirs.len() == 0 {
        s
    } else if dirs.last() {
        after_front(pulled_mixed(s, dirs.drop_last()))
    } else {
        after_back(pulled_mixed(s, dirs.drop_last()))
    }
}

/// Pulls from both ends never cross: as long as there have been no more pulls
/// than elements, what is left is the middle of `s`, with as many elements
/// gone from the front as there were forward pulls and from the back as
/// there were backward ones. Each pull thus hands out the element at its end
/// of that middle.
pub proof fn lemma_mixed_pulls<A>(s: Seq<A>, dirs: Seq<bool>)
    requires
        dirs.len() <= s.len(),
    ensures
        forward_count(dirs) <= dirs.len(),
        pulled_mixed(s, dirs) == s.subrange(
            forward_count(dirs) as int,
            s.len() - (dirs.len() - forward_count(dirs)),
        ),
    decreases dirs.len(),
{
    if dirs.len() > 0 {
        lemma_mixed_pulls(s, dirs.drop_last());
        let f = forward_count(dirs.drop_last()) as int;
        let b = (dirs.len() - 1) - f;
        let mid = s.subrange(f, s.len() - b);
        if dirs.last() {
            assert(after_front(mid) =~= s.subrange(f + 1, s.len() - b));
        } else {
            assert(after_back(mid) =~= s.subrange(f, s.len() - (b + 1)));
        }
    } else {
        assert(s.subrange(0, s.len() as int) =~= s);
    }
}

/// A producer of elements that can be pulled from the front.
pub trait Pull: Sized {
    type Item;

    /// The elements still to come, front first.
    spec fn remaining(&self) -> Seq<Self::Item>;

    /// The lower bound that the source reports on how many elements remain.
    spec fn size_lower(&self) -> usize;

    /// Hands out the next element, or nothing once the source is used up.
    fn next(&mut self) -> (r: Option<Self::Item>)
        ensures
            r == front(old(self).remaining()),
            final(self).remaining() == after_front(old(self).remaining()),
    ;

    /// A best-effort estimate of how many elements remain: a lower bound and,
    /// where known, an upper one.
    fn size_hint(&self) -> (r: (usize, Option<usize>))
        ensures
            r.0 == self.size_lower(),
            r.0 <= self.remaining().len(),
            r.1 matches Some(u) ==> self.remaining().len() <= u,
    ;
}

/// A producer that can also be pulled from the back.
pub trait PullBack: Pull {
    /// Hands out the last element, or nothing once the source is used up.
    fn next_back(&mut self) -> (r: Option<Self::Item>)
        ensures
            r == back(old(self).remaining()),
            final(self).remaining() == after_back(old(self).remaining()),
    ;
}

/// A producer that knows exactly how many elements remain.
pub trait ExactLen: Pull {
    /// The number of elements still to come.
    fn len(&self) -> (r: usize)
        ensures
            r == self.remaining().len(),
    ;
}

/// A source that hands out the elements of a vector, from either end.
pub struct VecSource<T> {
    /// The elements still to come, front first.
    pub items: Vec<T>,
}

impl<T> VecSource<T> {
    /// A source that will yield the elements of `items` in order.
    pub fn new(items: Vec<T>) -> (r: VecSource<T>)
        ensures
            r.remaining() == items@,
    {
        VecSource { items }
    }
}

impl<T> Pull for VecSource<T> {
    type Item = T;

    open spec fn remaining(&self) -> Seq<T> {
        self.items@
    }

    open spec fn size_lower(&self) -> usize {
        self.items@.len() as usize
    }

    fn next(&mut self) -> (r: Option<T>) {
        if self.items.len() == 0 {
            None
        } else {
            Some(self.items.remove(0))
        }
    }

    fn size_hint(&self) -> (r: (usize, Option<usize>)) {
        (self.items.len(), Some(self.items.len()))
    }
}

impl<T> PullBack for VecSource<T> {
    fn next_back(&mut self) -> (r: Option<T>) {
        self.items.pop()
    }
}

impl<T> ExactLen for VecSource<T> {
    fn len(&self) -> (r: usize) {
        self.items.len()
    }
}

} // verus!
