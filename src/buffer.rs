use vstd::prelude::*;

verus! {

/// A growable device buffer, kept in memory.
///
/// It holds the logical contents, the number of elements allocated on the
/// device, and whether the device copy holds the current contents.
pub struct GrowableBuffer<T> {
    values: Vec<T>,
    capacity: usize,
    uploaded: bool,
}

impl<T: Copy> GrowableBuffer<T> {
    /// The logical contents.
    pub closed spec fn spec_values(&self) -> Seq<T> {
        self.values@
    }

    /// The number of elements allocated on the device.
    pub closed spec fn spec_capacity(&self) -> nat {
        self.capacity as nat
    }

    /// Whether the device copy holds the current contents.
    pub closed spec fn spec_uploaded(&self) -> bool {
        self.uploaded
    }

    /// Bindable: the contents fill the allocation and the device holds them.
    pub open spec fn is_ready(&self) -> bool {
        &&& self.spec_values().len() == self.spec_capacity()
        &&& self.spec_uploaded()
    }

    /// An empty buffer with nothing allocated and nothing uploaded.
    pub fn new() -> (r: Self)
        ensures
            r.spec_values() == Seq::<T>::empty(),
            r.spec_capacity() == 0,
            !r.spec_uploaded(),
    {
        GrowableBuffer { values: Vec::new(), capacity: 0, uploaded: false }
    }

    pub fn capacity(&self) -> (r: usize)
        ensures
            r == self.spec_capacity(),
    {
        self.capacity
    }

    pub fn len(&self) -> (r: usize)
        ensures
            r == self.spec_values().len(),
    {
        self.values.len()
    }

    pub fn is_uploaded(&self) -> (r: bool)
        ensures
            r == self.spec_uploaded(),
    {
        self.uploaded
    }

    pub fn values(&self) -> (r: &Vec<T>)
        ensures
            r@ == self.spec_values(),
    {
        &self.values
    }

    /// The element at `i` of the logical contents.
    pub fn get(&self, i: usize) -> (r: T)
        requires
            i < self.spec_values().len(),
        ensures
            r == self.spec_values()[i as int],
    {
        self.values[i]
    }

    /// Makes sure at least `min_capacity` elements are allocated.
    ///
    /// A larger allocation replaces the device copy, which then holds
    /// nothing until the next upload; a request that the current
    /// allocation already meets changes nothing.
    pub fn reserve(&mut self, min_capacity: usize)
        ensures
            final(self).spec_values() == old(self).spec_values(),
            min_capacity <= old(self).spec_capacity() ==> *final(self) == *old(self),
            min_capacity > old(self).spec_capacity() ==> {
                &&& final(self).spec_capacity() == min_capacity
                &&& !final(self).spec_uploaded()
            },
    {
        if min_capacity > self.capacity {
            self.capacity = min_capacity;
            self.uploaded = false;
        }
    }

    /// Appends `value` to the logical contents; the device copy is then stale.
    pub fn push(&mut self, value: T)
        ensures
            final(self).spec_values() == old(self).spec_values().push(value),
            final(self).spec_capacity() == old(self).spec_capacity(),
            !final(self).spec_uploaded(),
    {
        self.values.push(value);
        self.uploaded = false;
    }

    /// Copies the whole logical contents to the device, first growing the
    /// allocation to the contents' length where it is smaller.
    pub fn upload(&mut self)
        ensures
            final(self).spec_values() == old(self).spec_values(),
            final(self).spec_capacity() == if old(self).spec_values().len()
                > old(self).spec_capacity() {
                old(self).spec_values().len()
            } else {
                old(self).spec_capacity()
            },
            final(self).spec_uploaded(),
    {
        if self.values.len() > self.capacity {
            self.capacity = self.values.len();
        }
        self.uploaded = true;
    }
}

} // verus!
