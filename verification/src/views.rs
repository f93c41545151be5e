//! What optional values and lists stand for, and how they are copied.
use vstd::prelude::*;

verus! {

/// What an optional value stands for.
pub open spec fn opt_view<T: View>(value: Option<T>) -> Option<T::V> {
    match value {
        Some(x) => Some(x@),
        None => None,
    }
}

/// What the items of a list stand for.
pub open spec fn views<T: View>(items: Seq<T>) -> Seq<T::V> {
    items.map_values(|x: T| x@)
}

/// A type whose clones stand for the same thing as the original.
pub trait Faithful: View + Clone {
    proof fn clone_keeps_view(&self, copy: &Self)
        requires
            cloned(*self, *copy),
        ensures
            copy@ == self@,
    ;
}

pub fn copy_opt<T: Faithful>(value: &Option<T>) -> (r: Option<T>)
    ensures
        opt_view(r) == opt_view(*value),
{
    match value {
        Some(x) => {
            let copy = x.clone();
            proof {
                x.clone_keeps_view(&copy);
            }
            Some(copy)
        },
        None => None,
    }
}

pub fn copy_all<T: Faithful>(items: &Vec<T>) -> (r: Vec<T>)
    ensures
        views(r@) == views(items@),
{
    let mut out: Vec<T> = Vec::new();
    let mut i: usize = 0;
    while i < items.len()
        invariant
            i <= items@.len(),
            out@.len() == i,
            forall|j: int| 0 <= j < i ==> (#[trigger] out@[j])@ == items@[j]@,
        decreases items@.len() - i,
    {
        let copy = items[i].clone();
        proof {
            items@[i as int].clone_keeps_view(&copy);
        }
        out.push(copy);
        i = i + 1;
    }
    assert(views(out@) =~= views(items@));
    out
}

pub fn copy_u32s(items: &Vec<u32>) -> (r: Vec<u32>)
    ensures
        r@ == items@,
{
    let mut out: Vec<u32> = Vec::new();
    let mut i: usize = 0;
    while i < items.len()
        invariant
            i <= items@.len(),
            out@ == items@.take(i as int),
        decreases items@.len() - i,
    {
        out.push(items[i]);
        assert(items@.take(i + 1) == items@.take(i as int).push(items@[i as int]));
        i = i + 1;
    }
    assert(items@.take(i as int) == items@);
    out
}

pub fn copy_opt_u32s(items: &Option<Vec<u32>>) -> (r: Option<Vec<u32>>)
    ensures
        opt_view(r) == opt_view(*items),
{
    match items {
        Some(x) => Some(copy_u32s(x)),
        None => None,
    }
}

} // verus!
