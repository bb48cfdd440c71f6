//! Making vectors.

use vstd::prelude::*;

verus! {

/// Make a vector of `n` items, each one the result of a call of `repeater`,
/// in the order of the calls.
pub fn make_vec<T, F: FnMut() -> T>(n: usize, repeater: F) -> (items: Vec<T>)
    requires
        call_requires(repeater, ()),
    ensures
        items.len() == n,
        forall|i: int| 0 <= i < n ==> call_ensures(repeater, (), #[trigger] items[i]),
{
    let mut source = repeater;
    let mut items: Vec<T> = Vec::new();
    let mut made: usize = 0;
    while made < n
        invariant
            made <= n,
            items.len() == made,
            source == repeater,
            call_requires(repeater, ()),
            forall|i: int| 0 <= i < made ==> call_ensures(repeater, (), #[trigger] items[i]),
        decreases n - made,
    {
        let item = source();
        items.push(item);
        made += 1;
    }
    items
}

} // verus!
