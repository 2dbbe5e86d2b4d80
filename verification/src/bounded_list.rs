//! A list that holds at most a fixed number of items.
use vstd::prelude::*;

verus! {

/// A list that refuses items once it is full.
pub struct BoundedList<T> {
    items: Vec<T>,
    max_size: usize,
}

impl<T> View for BoundedList<T> {
    type V = Seq<T>;

    closed spec fn view(&self) -> Seq<T> {
        self.items@
    }
}

impl<T> BoundedList<T> {
    /// How many items fit into the list.
    pub closed spec fn bound(&self) -> nat {
        self.max_size as nat
    }

    #[verifier::type_invariant]
    spec fn within_bound(self) -> bool {
        self.items@.len() <= self.max_size
    }

    pub fn new(max_size: usize) -> (r: Self)
        ensures
            r@ == Seq::<T>::empty(),
            r.bound() == max_size,
    {
        BoundedList { items: Vec::with_capacity(0), max_size }
    }

    /// An empty list with memory set aside for `capacity` items, or for `max_size` if that is less.
    pub fn with_capacity(max_size: usize, capacity: usize) -> (r: Self)
        ensures
            r@ == Seq::<T>::empty(),
            r.bound() == max_size,
    {
        let reserved: usize = if max_size < capacity {
            max_size
        } else {
            capacity
        };
        BoundedList { items: Vec::with_capacity(reserved), max_size }
    }

    pub fn max_size(&self) -> (r: usize)
        ensures
            r == self.bound(),
    {
        self.max_size
    }

    /// Appends `item`, or hands it back where the list is full.
    pub fn push(&mut self, item: T) -> (r: Result<(), T>)
        ensures
            final(self).bound() == old(self).bound(),
            match r {
                Ok(()) => old(self)@.len() < old(self).bound()
                    && final(self)@ == old(self)@.push(item),
                Err(refused) => old(self)@.len() == old(self).bound() && refused == item
                    && final(self)@ == old(self)@,
            },
    {
        proof {
            use_type_invariant(&*self);
        }
        if self.items.len() < self.max_size {
            let mut items: Vec<T> = Vec::new();
            std::mem::swap(&mut self.items, &mut items);
            items.push(item);
            self.items = items;
            Ok(())
        } else {
            Err(item)
        }
    }

    /// The number of items, which is never more than fit into the list.
    pub fn len(&self) -> (r: usize)
        ensures
            r == self@.len(),
            r <= self.bound(),
    {
        proof {
            use_type_invariant(self);
        }
        self.items.len()
    }

    pub fn is_empty(&self) -> (r: bool)
        ensures
            r == (self@.len() == 0),
    {
        self.items.len() == 0
    }

    pub fn is_full(&self) -> (r: bool)
        ensures
            r == (self@.len() == self.bound()),
    {
        self.items.len() == self.max_size
    }

    pub fn as_slice(&self) -> (r: &[T])
        ensures
            r@ == self@,
    {
        self.items.as_slice()
    }

    /// The items, in the order in which they were appended.
    pub fn into_items(self) -> (r: Vec<T>)
        ensures
            r@ == self@,
    {
        self.items
    }
}

/// What is put into a list that has room is its last item then, and those before stay; a full list
/// stays as it is and hands the item back.
pub proof fn law_full_lists_take_nothing<T>(
    list: &mut BoundedList<T>,
    item: T,
    taken: Result<(), T>,
)
    requires
        call_ensures(BoundedList::<T>::push, (list, item), taken),
    ensures
        taken is Ok <==> old(list)@.len() < old(list).bound(),
        taken is Ok ==> final(list)@.len() == old(list)@.len() + 1 && final(list)@.last() == item,
        forall|i: int| 0 <= i < old(list)@.len() ==> #[trigger] final(list)@[i] == old(list)@[i],
        taken matches Err(back) ==> back == item && final(list)@ == old(list)@,
        final(list).bound() == old(list).bound(),
{
}

} // verus!
