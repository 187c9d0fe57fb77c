use vstd::prelude::*;

verus! {

/// A pull-driven sequence that a progress decorator can wrap: it yields
/// its remaining elements in order and reports a remaining-size hint.
pub trait ProgressSource: Sized {
    type Elem;

    /// The elements the source still has to yield, in order.
    spec fn remaining(&self) -> Seq<Self::Elem>;

    /// The remaining-size hint the source reports: the pair of a lower
    /// bound and an optional upper bound on how many elements are left.
    spec fn hint_spec(&self) -> (usize, Option<usize>);

    /// Pulls the next element: the head of `remaining`, or `None` once
    /// nothing is left.
    fn next(&mut self) -> (r: Option<Self::Elem>)
        ensures
            old(self).remaining().len() == 0 ==> r is None && final(self).remaining()
                == old(self).remaining(),
            old(self).remaining().len() > 0 ==> r == Some(old(self).remaining()[0])
                && final(self).remaining() == old(self).remaining().drop_first(),
    ;

    /// Reports the remaining-size hint: a correct lower bound, and, when
    /// present, a correct upper bound, on the number of elements left.
    fn size_hint(&self) -> (r: (usize, Option<usize>))
        ensures
            r == self.hint_spec(),
            r.0 <= self.remaining().len(),
            (r.1 matches Some(upper) ==> self.remaining().len() <= upper),
    ;

    /// Counts the elements left, consuming the source.
    fn count(self) -> (r: usize)
        requires
            self.remaining().len() <= usize::MAX,
        ensures
            r == self.remaining().len(),
    ;
}

/// A source over a vector of copyable values, yielded front to back,
/// whose size hint is always its exact remaining count.
pub struct VecSource<T> {
    /// The elements, of which those at `pos` and beyond are still to come.
    pub items: Vec<T>,
    /// How many elements have been yielded.
    pub pos: usize,
}

impl<T: Copy> VecSource<T> {
    /// Wraps a vector as a source whose size hint is exact.
    pub fn new(items: Vec<T>) -> (r: VecSource<T>)
        ensures
            r.remaining() == items@,
    {
        let r = VecSource { items, pos: 0 };
        proof {
            assert(r.remaining() =~= r.items@);
        }
        r
    }
}

impl<T: Copy> ProgressSource for VecSource<T> {
    type Elem = T;

    open spec fn remaining(&self) -> Seq<T> {
        if self.pos <= self.items@.len() {
            self.items@.skip(self.pos as int)
        } else {
            Seq::empty()
        }
    }

    open spec fn hint_spec(&self) -> (usize, Option<usize>) {
        ((self.remaining().len() as usize, Some(self.remaining().len() as usize)))
    }

    fn next(&mut self) -> (r: Option<T>) {
        if self.pos < self.items.len() {
            let x = self.items[self.pos];
            self.pos = self.pos + 1;
            proof {
                assert(final(self).remaining() =~= old(self).remaining().drop_first());
            }
            Some(x)
        } else {
            None
        }
    }

    fn size_hint(&self) -> (r: (usize, Option<usize>)) {
        let rem: usize = if self.pos <= self.items.len() {
            self.items.len() - self.pos
        } else {
            0
        };
        (rem, Some(rem))
    }

    fn count(self) -> (r: usize) {
        if self.pos <= self.items.len() {
            self.items.len() - self.pos
        } else {
            0
        }
    }
}

/// A source over a vector of copyable values, yielded front to back, that
/// reports no size hint at all — the shape an endless or unknown-length
/// sequence presents to a consumer.
pub struct NoHintSource<T> {
    /// The elements, of which those at `pos` and beyond are still to come.
    pub items: Vec<T>,
    /// How many elements have been yielded.
    pub pos: usize,
}

impl<T: Copy> NoHintSource<T> {
    /// Wraps a vector as a source that reports no size hint.
    pub fn new(items: Vec<T>) -> (r: NoHintSource<T>)
        ensures
            r.remaining() == items@,
    {
        let r = NoHintSource { items, pos: 0 };
        proof {
            assert(r.remaining() =~= r.items@);
        }
        r
    }
}

impl<T: Copy> ProgressSource for NoHintSource<T> {
    type Elem = T;

    open spec fn remaining(&self) -> Seq<T> {
        if self.pos <= self.items@.len() {
            self.items@.skip(self.pos as int)
        } else {
            Seq::empty()
        }
    }

    open spec fn hint_spec(&self) -> (usize, Option<usize>) {
        ((0, None))
    }

    fn next(&mut self) -> (r: Option<T>) {
        if self.pos < self.items.len() {
            let x = self.items[self.pos];
            self.pos = self.pos + 1;
            proof {
                assert(final(self).remaining() =~= old(self).remaining().drop_first());
            }
            Some(x)
        } else {
            None
        }
    }

    fn size_hint(&self) -> (r: (usize, Option<usize>)) {
        (0, None)
    }

    fn count(self) -> (r: usize) {
        if self.pos <= self.items.len() {
            self.items.len() - self.pos
        } else {
            0
        }
    }
}

} // verus!
