//! Indices into a vertex buffer.

use vstd::prelude::*;

verus! {

/// The integer that an index is.
pub type IndexValue = u32;

/// One index into a vertex buffer.
#[derive(Debug, Clone, Copy, PartialEq, Eq, Hash, Structural)]
pub struct Index(pub IndexValue);

/// The values of a list of indices.
pub open spec fn index_values(indices: Seq<Index>) -> Seq<IndexValue> {
    indices.map_values(|index: Index| index.0)
}

/// A growable list of indices, in the order in which they are drawn.
#[derive(Debug, Clone)]
pub struct IndexList(pub Vec<Index>);

impl View for IndexList {
    type V = Seq<IndexValue>;

    open spec fn view(&self) -> Seq<IndexValue> {
        index_values(self.0@)
    }
}

impl Default for IndexList {
    fn default() -> (list: Self)
        ensures
            list@ == Seq::<IndexValue>::empty(),
    {
        IndexList::new()
    }
}

impl IndexList {
    /// An empty list.
    pub fn new() -> (list: Self)
        ensures
            list@ == Seq::<IndexValue>::empty(),
    {
        let list = IndexList(Vec::new());
        assert(list@ =~= Seq::<IndexValue>::empty());
        list
    }

    /// An empty list with room for `capacity` indices, which have to fit
    /// into `isize::MAX` bytes.
    pub fn with_capacity(capacity: usize) -> (list: Self)
        requires
            capacity * 4 <= isize::MAX,
        ensures
            list@ == Seq::<IndexValue>::empty(),
    {
        let list = IndexList(Vec::with_capacity(capacity));
        assert(list@ =~= Seq::<IndexValue>::empty());
        list
    }

    /// Appends an index.
    pub fn push(&mut self, index: Index)
        ensures
            final(self)@ == old(self)@.push(index.0),
    {
        self.0.push(index);
        assert(self@ =~= old(self)@.push(index.0));
    }

    /// Appends the index of a value.
    pub fn push_value(&mut self, index: IndexValue)
        ensures
            final(self)@ == old(self)@.push(index),
    {
        self.0.push(Index(index));
        assert(self@ =~= old(self)@.push(index));
    }

    /// Removes every index.
    pub fn clear(&mut self)
        ensures
            final(self)@ == Seq::<IndexValue>::empty(),
    {
        self.0.clear();
        assert(self@ =~= Seq::<IndexValue>::empty());
    }

    /// The list of the indices of some values, in their order.
    pub fn from(it: &[IndexValue]) -> (list: Self)
        ensures
            list@ == it@,
    {
        let mut indices: Vec<Index> = Vec::new();
        let mut i: usize = 0;
        while i < it.len()
            invariant
                i <= it.len(),
                index_values(indices@) == it@.take(i as int),
            decreases it.len() - i,
        {
            let ghost before = index_values(indices@);
            indices.push(Index(it[i]));
            assert(index_values(indices@) =~= before.push(it@[i as int]));
            assert(before.push(it@[i as int]) =~= it@.take(i + 1));
            i += 1;
        }
        assert(it@.take(i as int) =~= it@);
        IndexList(indices)
    }

    /// The values of the indices, in their order.
    pub fn values(&self) -> (values: Vec<IndexValue>)
        ensures
            values@ == self@,
    {
        let mut values: Vec<IndexValue> = Vec::new();
        let mut i: usize = 0;
        while i < self.0.len()
            invariant
                i <= self.0.len(),
                values@ == self@.take(i as int),
            decreases self.0.len() - i,
        {
            values.push(self.0[i].0);
            assert(values@ =~= self@.take(i + 1));
            i += 1;
        }
        assert(self@.take(i as int) =~= self@);
        values
    }
}

} // verus!
