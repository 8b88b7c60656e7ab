//! A one-shot, forward-only sample path.
use vstd::prelude::*;

verus! {

/// A sample path of a fractional Gaussian noise: the values that were drawn,
/// and a cursor over them. It is read once, from the front; when it is
/// exhausted it yields nothing more.
pub struct NoisePath<T> {
    position: usize,
    data: Vec<T>,
}

impl<T> NoisePath<T> {
    /// The cursor never passes the end of the values.
    #[verifier::type_invariant]
    spec fn well_formed(&self) -> bool {
        self.position <= self.data.len()
    }
}

impl<T: Copy> NoisePath<T> {
    /// The values of the path, in order.
    pub closed spec fn values(&self) -> Seq<T> {
        self.data@
    }

    /// How many values have been read.
    pub closed spec fn position(&self) -> nat {
        self.position as nat
    }

    /// The values that a reader has not seen yet.
    pub open spec fn rest(&self) -> Seq<T> {
        self.values().subrange(self.position() as int, self.values().len() as int)
    }

    /// A path over `data`, positioned before its first value.
    pub fn new(data: Vec<T>) -> (p: Self)
        ensures
            p.values() == data@,
            p.position() == 0,
            p.rest() == data@,
            p.position() <= p.values().len(),
    {
        let p = NoisePath { position: 0, data };
        assert(p.rest() =~= data@);
        p
    }

    /// The number of values in the path, read or not.
    pub fn len(&self) -> (r: usize)
        ensures
            r == self.values().len(),
    {
        self.data.len()
    }

    /// Reads the next value: `None` once every value has been read, and the
    /// path then stays as it is.
    pub fn next(&mut self) -> (r: Option<T>)
        ensures
            final(self).values() == old(self).values(),
            old(self).position() < old(self).values().len() ==> {
                &&& r == Some(old(self).values()[old(self).position() as int])
                &&& final(self).position() == old(self).position() + 1
            },
            old(self).position() >= old(self).values().len() ==> {
                &&& r.is_none()
                &&& final(self).position() == old(self).position()
            },
            final(self).position() <= final(self).values().len(),
            old(self).rest().len() > 0 ==> r == Some(old(self).rest()[0])
                && final(self).rest() == old(self).rest().drop_first(),
            old(self).rest().len() == 0 ==> final(self).rest().len() == 0,
    {
        proof {
            use_type_invariant(&*self);
        }
        if self.position >= self.data.len() {
            None
        } else {
            let state = self.data[self.position];
            self.position = self.position + 1;
            proof {
                assert(self.rest() =~= old(self).rest().drop_first());
            }
            Some(state)
        }
    }

    /// Gives up the cursor and hands over all the values of the path.
    pub fn into_vec(self) -> (r: Vec<T>)
        ensures
            r@ == self.values(),
    {
        self.data
    }
}

} // verus!
