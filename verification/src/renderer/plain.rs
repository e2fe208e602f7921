//! Small helpers on vectors of plain values.
use vstd::prelude::*;

verus! {

/// A fresh vector with the same items.
pub fn copy_of<T: Copy>(items: &Vec<T>) -> (copy: Vec<T>)
    ensures
        copy@ == items@,
{
    let mut copy: Vec<T> = Vec::new();
    let mut i: usize = 0;
    while i < items.len()
        invariant
            i <= items.len(),
            copy@ == items@.take(i as int),
        decreases items.len() - i,
    {
        copy.push(items[i]);
        i += 1;
        assert(items@.take(i as int) == items@.take(i - 1).push(items@[i - 1]));
    }
    assert(items@.take(items.len() as int) == items@);
    copy
}

/// Appends the items of `more` to `items`, in order.
pub fn append_copy<T: Copy>(items: &mut Vec<T>, more: &Vec<T>)
    ensures
        final(items)@ == old(items)@ + more@,
{
    let mut i: usize = 0;
    while i < more.len()
        invariant
            i <= more.len(),
            items@ == old(items)@ + more@.take(i as int),
        decreases more.len() - i,
    {
        items.push(more[i]);
        i += 1;
        assert(more@.take(i as int) == more@.take(i - 1).push(more@[i - 1]));
    }
    assert(more@.take(more.len() as int) == more@);
}

} // verus!
