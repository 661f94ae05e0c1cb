//! Small fixed-size queues that hand out the members of a pair, a triplet or a
//! quadruplet one by one, first member first.
//!
//! The sample encoder uses them to emit the bytes of one sample in order.

use vstd::prelude::*;

verus! {

/// What is left of an optional member: one item, or nothing.
pub open spec fn pending<T>(slot: Option<T>) -> Seq<T> {
    match slot {
        Some(x) => seq![x],
        None => Seq::empty(),
    }
}

/// Hands out the two members of a pair, one per call.
pub struct PairIter<T> {
    a: Option<T>,
    b: Option<T>,
}

impl<T> View for PairIter<T> {
    type V = Seq<T>;

    /// The members that are still to come, in order.
    closed spec fn view(&self) -> Seq<T> {
        pending(self.a) + pending(self.b)
    }
}

impl<T: Copy> PairIter<T> {
    pub fn new(pair: (T, T)) -> (it: Self)
        ensures
            it@ == seq![pair.0, pair.1],
    {
        let it = Self { a: Some(pair.0), b: Some(pair.1) };
        assert(it@ =~= seq![pair.0, pair.1]);
        it
    }

    /// Takes the next member, if one is left.
    pub fn next(&mut self) -> (r: Option<T>)
        ensures
            old(self)@.len() == 0 ==> r is None && final(self)@ == old(self)@,
            old(self)@.len() > 0 ==> r == Some(old(self)@[0]) && final(self)@ == old(self)@.skip(1),
    {
        match self.a {
            Some(a) => {
                self.a = None;
                assert(self@ =~= old(self)@.skip(1));
                Some(a)
            },
            None => match self.b {
                Some(b) => {
                    self.b = None;
                    assert(self@ =~= old(self)@.skip(1));
                    Some(b)
                },
                None => None,
            },
        }
    }

    /// Moves the members that are left to the end of `out`, in order.
    pub fn drain_into(&mut self, out: &mut Vec<T>)
        ensures
            final(out)@ == old(out)@ + old(self)@,
            final(self)@.len() == 0,
    {
        loop
            invariant
                out@ + self@ == old(out)@ + old(self)@,
            ensures
                out@ == old(out)@ + old(self)@,
                self@.len() == 0,
            decreases self@.len(),
        {
            let ghost filled = out@;
            let ghost rest = self@;
            match self.next() {
                Some(x) => {
                    out.push(x);
                    assert(out@ + self@ =~= filled + rest);
                },
                None => {
                    assert(out@ + self@ =~= out@);
                    break ;
                },
            }
        }
    }
}

/// Hands out the three members of a triplet, one per call.
pub struct TripletIter<T> {
    a: Option<T>,
    b: Option<T>,
    c: Option<T>,
}

impl<T> View for TripletIter<T> {
    type V = Seq<T>;

    /// The members that are still to come, in order.
    closed spec fn view(&self) -> Seq<T> {
        pending(self.a) + pending(self.b) + pending(self.c)
    }
}

impl<T: Copy> TripletIter<T> {
    pub fn new(triplet: (T, T, T)) -> (it: Self)
        ensures
            it@ == seq![triplet.0, triplet.1, triplet.2],
    {
        let it = Self { a: Some(triplet.0), b: Some(triplet.1), c: Some(triplet.2) };
        assert(it@ =~= seq![triplet.0, triplet.1, triplet.2]);
        it
    }

    /// Takes the next member, if one is left.
    pub fn next(&mut self) -> (r: Option<T>)
        ensures
            old(self)@.len() == 0 ==> r is None && final(self)@ == old(self)@,
            old(self)@.len() > 0 ==> r == Some(old(self)@[0]) && final(self)@ == old(self)@.skip(1),
    {
        match self.a {
            Some(a) => {
                self.a = None;
                assert(self@ =~= old(self)@.skip(1));
                Some(a)
            },
            None => match self.b {
                Some(b) => {
                    self.b = None;
                    assert(self@ =~= old(self)@.skip(1));
                    Some(b)
                },
                None => match self.c {
                    Some(c) => {
                        self.c = None;
                        assert(self@ =~= old(self)@.skip(1));
                        Some(c)
                    },
                    None => None,
                },
            },
        }
    }

    /// Moves the members that are left to the end of `out`, in order.
    pub fn drain_into(&mut self, out: &mut Vec<T>)
        ensures
            final(out)@ == old(out)@ + old(self)@,
            final(self)@.len() == 0,
    {
        loop
            invariant
                out@ + self@ == old(out)@ + old(self)@,
            ensures
                out@ == old(out)@ + old(self)@,
                self@.len() == 0,
            decreases self@.len(),
        {
            let ghost filled = out@;
            let ghost rest = self@;
            match self.next() {
                Some(x) => {
                    out.push(x);
                    assert(out@ + self@ =~= filled + rest);
                },
                None => {
                    assert(out@ + self@ =~= out@);
                    break ;
                },
            }
        }
    }
}

/// Hands out the four members of a quadruplet, one per call.
pub struct QuadrupletIter<T> {
    a: Option<T>,
    b: Option<T>,
    c: Option<T>,
    d: Option<T>,
}

impl<T> View for QuadrupletIter<T> {
    type V = Seq<T>;

    /// The members that are still to come, in order.
    closed spec fn view(&self) -> Seq<T> {
        pending(self.a) + pending(self.b) + pending(self.c) + pending(self.d)
    }
}

impl<T: Copy> QuadrupletIter<T> {
    pub fn new(quadruplet: (T, T, T, T)) -> (it: Self)
        ensures
            it@ == seq![quadruplet.0, quadruplet.1, quadruplet.2, quadruplet.3],
    {
        let it = Self {
            a: Some(quadruplet.0),
            b: Some(quadruplet.1),
            c: Some(quadruplet.2),
            d: Some(quadruplet.3),
        };
        assert(it@ =~= seq![quadruplet.0, quadruplet.1, quadruplet.2, quadruplet.3]);
        it
    }

    /// Takes the next member, if one is left.
    pub fn next(&mut self) -> (r: Option<T>)
        ensures
            old(self)@.len() == 0 ==> r is None && final(self)@ == old(self)@,
            old(self)@.len() > 0 ==> r == Some(old(self)@[0]) && final(self)@ == old(self)@.skip(1),
    {
        match self.a {
            Some(a) => {
                self.a = None;
                assert(self@ =~= old(self)@.skip(1));
                Some(a)
            },
            None => match self.b {
                Some(b) => {
                    self.b = None;
                    assert(self@ =~= old(self)@.skip(1));
                    Some(b)
                },
                None => match self.c {
                    Some(c) => {
                        self.c = None;
                        assert(self@ =~= old(self)@.skip(1));
                        Some(c)
                    },
                    None => match self.d {
                        Some(d) => {
                            self.d = None;
                            assert(self@ =~= old(self)@.skip(1));
                            Some(d)
                        },
                        None => None,
                    },
                },
            },
        }
    }

    /// Moves the members that are left to the end of `out`, in order.
    pub fn drain_into(&mut self, out: &mut Vec<T>)
        ensures
            final(out)@ == old(out)@ + old(self)@,
            final(self)@.len() == 0,
    {
        loop
            invariant
                out@ + self@ == old(out)@ + old(self)@,
            ensures
                out@ == old(out)@ + old(self)@,
                self@.len() == 0,
            decreases self@.len(),
        {
            let ghost filled = out@;
            let ghost rest = self@;
            match self.next() {
                Some(x) => {
                    out.push(x);
                    assert(out@ + self@ =~= filled + rest);
                },
                None => {
                    assert(out@ + self@ =~= out@);
                    break ;
                },
            }
        }
    }
}

} // verus!
