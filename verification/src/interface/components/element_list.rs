//! Keeping a list of interface elements as long as the list of things it
//! shows.
use vstd::prelude::*;

verus! {

/// Makes `elements` `count` long: the elements beyond `count` are dropped,
/// the others kept, and for each new index `make` makes the element.
pub fn sync_element_count<T, F: Fn(usize) -> T>(elements: &mut Vec<T>, count: usize, make: &F)
    requires
        forall|i: usize| call_requires(*make, (i,)),
    ensures
        final(elements)@.len() == count,
        forall|i: int|
            0 <= i < count && i < old(elements)@.len() ==> #[trigger] final(elements)@[i] == old(
                elements,
            )@[i],
        forall|i: int|
            old(elements)@.len() <= i < count ==> call_ensures(
                *make,
                (i as usize,),
                #[trigger] final(elements)@[i],
            ),
{
    let ghost initial = elements@;
    if elements.len() > count {
        elements.truncate(count);
    }
    let start = elements.len();
    while elements.len() < count
        invariant
            start <= elements@.len() <= count,
            start == if initial.len() < count {
                initial.len()
            } else {
                count as nat
            },
            forall|i: int| 0 <= i < start ==> #[trigger] elements@[i] == initial[i],
            forall|i: usize| call_requires(*make, (i,)),
            forall|i: int| start <= i < elements@.len() ==> call_ensures(
                *make,
                (i as usize,),
                #[trigger] elements@[i],
            ),
        decreases count - elements@.len(),
    {
        let index = elements.len();
        let element = make(index);
        elements.push(element);
    }
}

} // verus!
