//! Places on a ring: the population seen as a circle, where the place after
//! the last is the first.

use vstd::prelude::*;

verus! {

/// The place reached from `origin` by `offset` steps on a ring of `size`
/// places; a negative offset steps backward.
pub open spec fn position(origin: int, offset: int, size: int) -> int
    recommends
        size > 0,
{
    (origin + offset) % size
}

/// The number of steps between two places of a ring of `size` places, the
/// shorter way round.
pub open spec fn distance(from: int, to: int, size: int) -> int
    recommends
        size > 0,
{
    let ahead = (to - from) % size;
    let behind = (from - to) % size;
    if ahead <= behind {
        ahead
    } else {
        behind
    }
}

/// The length of an offset whatever its direction.
pub open spec fn magnitude(offset: int) -> int {
    if offset < 0 {
        -offset
    } else {
        offset
    }
}

/// A place reached by an offset is no further from the origin than the offset
/// is long, however often the steps go round the ring.
pub proof fn lemma_within_reach(origin: int, offset: int, size: int)
    requires
        size > 0,
    ensures
        0 <= position(origin, offset, size) < size,
        0 <= distance(origin, position(origin, offset, size), size) <= magnitude(offset),
{
    let place = position(origin, offset, size);
    vstd::arithmetic::div_mod::lemma_mod_bound(origin + offset, size);
    vstd::arithmetic::div_mod::lemma_mod_bound(place - origin, size);
    vstd::arithmetic::div_mod::lemma_mod_bound(origin - place, size);
    // Stepping to the place and back to the origin leaves the offset.
    vstd::arithmetic::div_mod::lemma_sub_mod_noop(origin + offset, origin, size);
    vstd::arithmetic::div_mod::lemma_sub_mod_noop(place, origin, size);
    vstd::arithmetic::div_mod::lemma_mod_twice(origin + offset, size);
    assert((place - origin) % size == offset % size);
    vstd::arithmetic::div_mod::lemma_sub_mod_noop(origin, origin + offset, size);
    vstd::arithmetic::div_mod::lemma_sub_mod_noop(origin, place, size);
    assert((origin - place) % size == (-offset) % size);
    if offset >= 0 {
        vstd::arithmetic::div_mod::lemma_mod_decreases(offset as nat, size as nat);
    } else {
        vstd::arithmetic::div_mod::lemma_mod_decreases((-offset) as nat, size as nat);
    }
}

/// The place reached from `origin` by `offset` steps on a ring of `size`
/// places.
pub fn neighbour(origin: usize, offset: isize, size: usize) -> (place: usize)
    requires
        origin < size,
    ensures
        place == position(origin as int, offset as int, size as int),
        place < size,
        distance(origin as int, place as int, size as int) <= magnitude(offset as int),
{
    proof {
        lemma_within_reach(origin as int, offset as int, size as int);
    }
    if offset >= 0 {
        let ahead: usize = (offset as usize) % size;
        proof {
            vstd::arithmetic::div_mod::lemma_add_mod_noop_right(
                origin as int,
                offset as int,
                size as int,
            );
        }
        if ahead >= size - origin {
            proof {
                vstd::arithmetic::div_mod::lemma_mod_sub_multiples_vanish(
                    origin + ahead,
                    size as int,
                );
                vstd::arithmetic::div_mod::lemma_small_mod(
                    (origin + ahead - size) as nat,
                    size as nat,
                );
            }
            ahead - (size - origin)
        } else {
            proof {
                vstd::arithmetic::div_mod::lemma_small_mod((origin + ahead) as nat, size as nat);
            }
            origin + ahead
        }
    } else {
        let steps: usize = if offset == isize::MIN {
            (isize::MAX as usize) + 1
        } else {
            (-offset) as usize
        };
        let behind: usize = steps % size;
        proof {
            vstd::arithmetic::div_mod::lemma_sub_mod_noop_right(
                origin as int,
                steps as int,
                size as int,
            );
        }
        if behind <= origin {
            proof {
                vstd::arithmetic::div_mod::lemma_small_mod((origin - behind) as nat, size as nat);
            }
            origin - behind
        } else {
            proof {
                vstd::arithmetic::div_mod::lemma_mod_add_multiples_vanish(
                    origin - behind,
                    size as int,
                );
                vstd::arithmetic::div_mod::lemma_small_mod(
                    (size + origin - behind) as nat,
                    size as nat,
                );
            }
            size - (behind - origin)
        }
    }
}

} // verus!
