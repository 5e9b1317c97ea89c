use vstd::prelude::*;

verus! {

/// A stack that holds at most `N` items.
#[derive(Debug)]
pub struct Vec<T, const N: usize> {
    items: std::vec::Vec<T>,
}

impl<T, const N: usize> View for Vec<T, N> {
    type V = Seq<T>;

    /// The items, bottom first.
    closed spec fn view(&self) -> Seq<T> {
        self.items@
    }
}

impl<T, const N: usize> Vec<T, N> {
    /// No more than `N` items are held; every stack keeps to this.
    #[verifier::type_invariant]
    spec fn inv(&self) -> bool {
        self.items@.len() <= N
    }

    /// No more than `N` items are held.
    pub open spec fn wf(&self) -> bool {
        self@.len() <= N
    }

    /// An empty stack.
    pub fn new() -> (stack: Self)
        ensures
            stack.wf(),
            stack@ == Seq::<T>::empty(),
    {
        Vec { items: std::vec::Vec::new() }
    }

    /// A stack holding `items`, the last of them on top.
    pub fn from_iter(items: std::vec::Vec<T>) -> (stack: Self)
        requires
            items@.len() <= N,
        ensures
            stack.wf(),
            stack@ == items@,
    {
        Vec { items }
    }

    /// The number of items held.
    pub fn len(&self) -> (len: usize)
        ensures
            len == self@.len(),
            self.wf(),
    {
        proof {
            use_type_invariant(self);
        }
        self.items.len()
    }

    /// Whether no item is held.
    pub fn is_empty(&self) -> (empty: bool)
        ensures
            empty == (self@.len() == 0),
            self.wf(),
    {
        proof {
            use_type_invariant(self);
        }
        self.items.len() == 0
    }

    /// The number of items the stack can hold.
    pub fn capacity(&self) -> (capacity: usize)
        ensures
            capacity == N,
    {
        N
    }

    /// Puts `item` on top.
    pub fn push(&mut self, item: T)
        requires
            old(self)@.len() < N,
        ensures
            final(self).wf(),
            final(self)@ == old(self)@.push(item),
    {
        let mut items = std::vec::Vec::new();
        std::mem::swap(&mut items, &mut self.items);
        items.push(item);
        self.items = items;
    }

    /// Takes the top item off.
    pub fn pop(&mut self) -> (item: T)
        requires
            old(self)@.len() > 0,
        ensures
            final(self).wf(),
            item == old(self)@.last(),
            final(self)@ == old(self)@.drop_last(),
    {
        proof {
            use_type_invariant(&*self);
        }
        let mut items = std::vec::Vec::new();
        std::mem::swap(&mut items, &mut self.items);
        let item = match items.pop() {
            Some(item) => item,
            None => unreached(),
        };
        self.items = items;
        item
    }

    /// The top item.
    pub fn peek(&self) -> (item: &T)
        requires
            self@.len() > 0,
        ensures
            *item == self@.last(),
    {
        let n = self.items.len();
        &self.items[n - 1]
    }

    /// The item at `index`, counted from the bottom.
    pub fn get(&self, index: usize) -> (item: &T)
        requires
            index < self@.len(),
        ensures
            *item == self@[index as int],
    {
        &self.items[index]
    }
}

impl<T, const N: usize> Vec<T, N> {
    /// A cursor over the items, bottom first.
    pub fn into_iter<'d>(&'d self) -> (iter: VecIter<'d, T, N>)
        ensures
            iter.items() == self@,
            iter.position() == 0,
    {
        VecIter { inner: self, idx: 0 }
    }
}

/// A cursor that hands out the items of a stack, bottom first.
pub struct VecIter<'d, T, const N: usize> {
    inner: &'d Vec<T, N>,
    idx: usize,
}

impl<'d, T, const N: usize> VecIter<'d, T, N> {
    /// The items the cursor walks over.
    pub closed spec fn items(&self) -> Seq<T> {
        self.inner@
    }

    /// How many items the cursor has handed out.
    pub closed spec fn position(&self) -> nat {
        self.idx as nat
    }

    /// The next item, or `None` once every item has been handed out.
    pub fn next(&mut self) -> (item: Option<&'d T>)
        ensures
            final(self).items() == old(self).items(),
            old(self).position() < old(self).items().len() ==> {
                &&& item == Some(&old(self).items()[old(self).position() as int])
                &&& final(self).position() == old(self).position() + 1
            },
            old(self).position() >= old(self).items().len() ==> {
                &&& item is None
                &&& final(self).position() == old(self).position()
            },
    {
        if self.idx < self.inner.len() {
            let item = self.inner.get(self.idx);
            self.idx = self.idx + 1;
            return Some(item);
        }
        None
    }
}

impl<T, const N: usize> std::ops::Index<usize> for Vec<T, N> {
    type Output = T;

    fn index(&self, index: usize) -> (item: &T)
        ensures
            *item == self@[index as int],
    {
        &self.items[index]
    }
}

impl<T, const N: usize> vstd::std_specs::core::IndexSpecImpl<usize> for Vec<T, N> {
    open spec fn index_req(&self, index: &usize) -> bool {
        *index < self@.len()
    }
}

impl<T, const N: usize> Default for Vec<T, N> {
    fn default() -> (stack: Self)
        ensures
            stack.wf(),
            stack@ == Seq::<T>::empty(),
    {
        Self::new()
    }
}

/// Pushing an item and then popping gives that item back and leaves the
/// stack as it was before the push.
pub proof fn law_push_pop<T, const N: usize>(
    before: Vec<T, N>,
    pushed: Vec<T, N>,
    after: Vec<T, N>,
    item: T,
    popped: T,
)
    requires
        pushed@ == before@.push(item),
        popped == pushed@.last(),
        after@ == pushed@.drop_last(),
    ensures
        popped == item,
        after@ == before@,
{
    assert(before@.push(item).drop_last() =~= before@);
}

} // verus!
