//! A fixed window over the last three points pushed onto a contour.
use vstd::prelude::*;

verus! {

/// The window after `item` is appended: the oldest entry leaves once three
/// entries are held.
pub open spec fn window_push<T>(window: Seq<T>, item: T) -> Seq<T> {
    if window.len() < 3 {
        window.push(item)
    } else {
        window.drop_first().push(item)
    }
}

/// The window obtained by appending `n` copies of `item` to an empty window.
pub open spec fn filled_window<T>(n: nat, item: T) -> Seq<T> {
    Seq::new(if n < 3 { n } else { 3 }, |i: int| item)
}

/// Ring buffer holding the last three pushed items, oldest first.
pub struct PointBuffer<T> {
    s0: T,
    s1: T,
    s2: T,
    start: usize,
    count: usize,
}

impl<T> PointBuffer<T> {
    closed spec fn slot(&self, i: int) -> T {
        if i == 0 {
            self.s0
        } else if i == 1 {
            self.s1
        } else {
            self.s2
        }
    }

    /// The ring indices are in range, and the window only wraps once full.
    pub closed spec fn wf(&self) -> bool {
        &&& self.start < 3
        &&& self.count <= 3
        &&& self.count < 3 ==> self.start == 0
    }

    /// The held items, oldest first.
    pub closed spec fn items(&self) -> Seq<T> {
        Seq::new(self.count as nat, |i: int| self.slot((self.start + i) % 3))
    }
}

impl<T> View for PointBuffer<T> {
    type V = Seq<T>;

    open spec fn view(&self) -> Seq<T> {
        self.items()
    }
}

impl<T: Copy + Default> PointBuffer<T> {
    pub fn new() -> (buffer: Self)
        ensures
            buffer.wf(),
            buffer@ == Seq::<T>::empty(),
    {
        let buffer = PointBuffer { s0: T::default(), s1: T::default(), s2: T::default(), start: 0, count: 0 };
        assert(buffer@ =~= Seq::<T>::empty());
        buffer
    }

    fn set_slot(&mut self, i: usize, item: T)
        requires
            i < 3,
        ensures
            final(self).start == old(self).start,
            final(self).count == old(self).count,
            forall|j: int| 0 <= j < 3 ==> #[trigger] final(self).slot(j) == if j == i { item } else {
                old(self).slot(j)
            },
    {
        if i == 0 {
            self.s0 = item;
        } else if i == 1 {
            self.s1 = item;
        } else {
            self.s2 = item;
        }
    }

    fn slot_ref(&self, i: usize) -> (r: &T)
        requires
            i < 3,
        ensures
            *r == self.slot(i as int),
    {
        if i == 0 {
            &self.s0
        } else if i == 1 {
            &self.s1
        } else {
            &self.s2
        }
    }

    fn slot_mut(&mut self, i: usize) -> (r: &mut T)
        requires
            i < 3,
        ensures
            *r == old(self).slot(i as int),
            final(self).start == old(self).start,
            final(self).count == old(self).count,
            forall|j: int| 0 <= j < 3 ==> #[trigger] final(self).slot(j) == if j == i {
                *final(r)
            } else {
                old(self).slot(j)
            },
    {
        if i == 0 {
            &mut self.s0
        } else if i == 1 {
            &mut self.s1
        } else {
            &mut self.s2
        }
    }

    /// Appends `item`; once three items are held the oldest one is dropped.
    pub fn push(&mut self, item: T)
        requires
            old(self).wf(),
        ensures
            final(self).wf(),
            final(self)@ == window_push(old(self)@, item),
    {
        if self.count < 3 {
            let c = self.count;
            self.set_slot(c, item);
            let ghost mid = *self;
            self.count = c + 1;
            assert forall|k: int| 0 <= k < self@.len() implies self@[k] == old(self)@.push(item)[k] by {
                assert((self.start + k) % 3 == k);
                assert(mid.slot(k) == if k == c { item } else { old(self).slot(k) });
            }
            assert(self@ =~= old(self)@.push(item));
        } else {
            let s = self.start;
            self.set_slot(s, item);
            let ghost mid = *self;
            self.start = if s == 2 { 0 } else { s + 1 };
            assert forall|k: int| 0 <= k < 3 implies self@[k] == old(self)@.drop_first().push(item)[k] by {
                let j = (self.start + k) % 3;
                assert(mid.slot(j) == if j == s { item } else { old(self).slot(j) });
                if k < 2 {
                    assert(j == (s + k + 1) % 3);
                } else {
                    assert(j == s);
                }
            }
            assert(self@ =~= old(self)@.drop_first().push(item));
        }
    }

    /// Overwrites the newest item.
    pub fn replace_last(&mut self, item: T)
        requires
            old(self).wf(),
            old(self)@.len() > 0,
        ensures
            final(self).wf(),
            final(self)@ == old(self)@.update(old(self)@.len() - 1, item),
    {
        let i: usize = (self.start + self.count - 1) % 3;
        self.set_slot(i, item);
        assert(self@ =~= old(self)@.update(old(self)@.len() - 1, item));
    }

    /// Forgets every item.
    pub fn clear(&mut self)
        ensures
            final(self).wf(),
            final(self)@ == Seq::<T>::empty(),
    {
        self.start = 0;
        self.count = 0;
        assert(self@ =~= Seq::<T>::empty());
    }

    pub fn count(&self) -> (n: usize)
        ensures
            n == self@.len(),
    {
        self.count
    }

    /// The item at `index`, counted from the oldest held item.
    pub fn get(&self, index: usize) -> (r: &T)
        requires
            self.wf(),
            index < self@.len(),
        ensures
            *r == self@[index as int],
    {
        self.slot_ref((self.start + index) % 3)
    }

    pub fn last(&self) -> (r: &T)
        requires
            self.wf(),
            self@.len() > 0,
        ensures
            *r == self@.last(),
    {
        self.slot_ref((self.start + self.count - 1) % 3)
    }

    pub fn last_mut(&mut self) -> (r: &mut T)
        requires
            old(self).wf(),
            old(self)@.len() > 0,
        ensures
            *r == old(self)@.last(),
            final(self).wf(),
            final(self)@ == old(self)@.update(old(self)@.len() - 1, *final(r)),
    {
        let i: usize = (self.start + self.count - 1) % 3;
        self.slot_mut(i)
    }

    /// The two newest items, older first.
    pub fn last_two(&self) -> (r: (&T, &T))
        requires
            self.wf(),
            self@.len() >= 2,
        ensures
            *r.0 == self@[self@.len() - 2],
            *r.1 == self@[self@.len() - 1],
    {
        (self.slot_ref((self.start + self.count - 2) % 3), self.slot_ref((self.start + self.count - 1) % 3))
    }

    /// Mutable access to the two newest items, older first.
    pub fn last_two_mut(&mut self) -> (r: (&mut T, &mut T))
        requires
            old(self).wf(),
            old(self)@.len() >= 2,
        ensures
            *r.0 == old(self)@[old(self)@.len() - 2],
            *r.1 == old(self)@[old(self)@.len() - 1],
            final(self).wf(),
            final(self)@ == old(self)@.update(old(self)@.len() - 2, *final(r.0)).update(
                old(self)@.len() - 1,
                *final(r.1),
            ),
    {
        let i: usize = (self.start + self.count - 2) % 3;
        let r = if i == 0 {
            (&mut self.s0, &mut self.s1)
        } else if i == 1 {
            (&mut self.s1, &mut self.s2)
        } else {
            (&mut self.s2, &mut self.s0)
        };
        r
    }
}

} // verus!
